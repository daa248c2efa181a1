//! The questions that are waiting to be put to a language server, and the order they go in.
//!
//! Every call on a server blocks, so the questions go on a worker of their own and the answers
//! are read back on a later frame. The worker itself - the thread, the lock it waits on and the
//! channel the answers come back through - stands outside the library; what it decides, each
//! time it wakes, is here.
//!
//! What is waiting to be asked is a slot per kind of question rather than a queue, so a
//! question replaces the one it supersedes instead of piling up behind it. That is the whole of
//! the cancellation this needs: a completion asked for `gre` that has not gone yet is simply
//! overwritten by the one for `greet`, and one that has gone comes back and is thrown away by
//! [`Completing::answered`](crate::Completing::answered) because it no longer matches what is
//! being typed.

use vstd::prelude::*;

use crate::completing::{Asked, AskedView};
use crate::source::{LspCompletion, LspLocation, LspPosition, LspStatus};
use crate::widget::{Word, WordView};

verus! {

/// Which of the two things a status question is about, carried out and back so the answer
/// reaches the right half of [`Served`](crate::Served).
#[derive(Clone, Copy, PartialEq, Eq, Debug, Structural)]
pub enum StatusAbout {
    /// Whether anything serves this file at all. Asked once.
    WhetherServed,
    /// Whether the server has finished reading the project. Asked again every second until
    /// the answer is yes.
    WhetherStillStarting,
}

/// A question to put to the server.
pub enum Ask {
    /// Where the file stands.
    Status(StatusAbout),
    /// The whole of the text, as an open or as a change.
    Send {
        /// What to tell the server the file holds.
        text: String,
        /// Whether this is the first the server hears of it.
        opening: bool,
    },
    /// Where the clicked name is defined. The word is carried so the answer can be checked
    /// against the click that is still current when it lands.
    Definition {
        /// The name that was clicked.
        word: Word,
        /// Where in the file it sits.
        at: LspPosition,
    },
    /// What could finish the word being typed.
    Completion(Asked),
    /// What the server behind this file said opens a completion list on its own.
    Triggers,
}

/// An [`Ask`] as values.
pub enum AskView {
    Status(StatusAbout),
    Send { text: Seq<char>, opening: bool },
    Definition { word: WordView, at: LspPosition },
    Completion(AskedView),
    Triggers,
}

impl View for Ask {
    type V = AskView;

    open spec fn view(&self) -> AskView {
        match self {
            Ask::Status(about) => AskView::Status(*about),
            Ask::Send { text, opening } => AskView::Send { text: text@, opening: *opening },
            Ask::Definition { word, at } => AskView::Definition { word: word@, at: *at },
            Ask::Completion(asked) => AskView::Completion(asked@),
            Ask::Triggers => AskView::Triggers,
        }
    }
}

/// An answer, read back on a later frame.
pub enum Heard {
    /// Where the file stands, and which question it answers.
    Status {
        /// The question this answers.
        about: StatusAbout,
        /// What the server said.
        status: LspStatus,
    },
    /// What became of an [`Ask::Send`].
    Told {
        /// The text that was sent, so the record of what the server has heard is written from
        /// what actually went rather than from what is on screen now.
        text: String,
        /// Whether the server heard it.
        heard: bool,
    },
    /// Where a name is defined. `None` for a question that could not be put at all, which is
    /// not the same as a server that answered with nowhere.
    Definition {
        /// The name that was clicked.
        word: Word,
        /// Everywhere the server says it is defined.
        places: Option<Vec<LspLocation>>,
    },
    /// What opens a completion list on its own, as the server behind this file named them.
    Triggers(Vec<char>),
    /// What could finish a word. `None` for a server that could not answer.
    Completion {
        /// The question this answers.
        asked: Asked,
        /// What the server offered.
        rows: Option<Vec<LspCompletion>>,
    },
}

/// The kinds of question, which is also how many can be waiting at once.
#[derive(Clone, Copy, PartialEq, Eq, Debug, Structural)]
pub enum Kind {
    /// The text.
    Document,
    /// Where the file stands.
    Status,
    /// A click.
    Definition,
    /// What opens a list.
    Triggers,
    /// What could finish a word.
    Completion,
}

/// Which waiting question is taken next.
///
/// The order is the whole contract with the state machines above. The document goes first:
/// every other question is about a place in text the server has to have heard already. The
/// status is next, because it says whether asking is worth anything. Then the click, which
/// somebody is waiting on. Then what opens a list, asked once per server. And last the
/// completion, which is an offer nobody asked for out loud.
pub const IN_ORDER: [Kind; 5] = [
    Kind::Document,
    Kind::Status,
    Kind::Definition,
    Kind::Triggers,
    Kind::Completion,
];

/// Where `kind` stands in [`IN_ORDER`].
pub open spec fn place_of(kind: Kind) -> int {
    match kind {
        Kind::Document => 0,
        Kind::Status => 1,
        Kind::Definition => 2,
        Kind::Triggers => 3,
        Kind::Completion => 4,
    }
}

impl Kind {
    /// Which slot this kind of question waits in, which is where it stands in the order.
    pub fn slot(self) -> (slot: usize)
        ensures
            slot < 5,
            IN_ORDER@[slot as int] == self,
            slot == place_of(self),
    {
        let order = IN_ORDER;
        let mut i: usize = 0;
        while i < 5
            invariant
                i <= 5,
                order@ == IN_ORDER@,
                forall|j: int| 0 <= j < i ==> IN_ORDER@[j] != self,
            decreases 5 - i,
        {
            if order[i] == self {
                return i;
            }
            i = i + 1;
        }
        proof {
            assert(IN_ORDER@[place_of(self)] == self);
        }
        0
    }
}

/// Which kind of question an ask is.
pub open spec fn kind_of(ask: AskView) -> Kind {
    match ask {
        AskView::Status(_) => Kind::Status,
        AskView::Send { .. } => Kind::Document,
        AskView::Definition { .. } => Kind::Definition,
        AskView::Completion(_) => Kind::Completion,
        AskView::Triggers => Kind::Triggers,
    }
}

impl Ask {
    /// Which kind of question this is.
    pub fn kind(&self) -> (kind: Kind)
        ensures
            kind == kind_of(self@),
    {
        match self {
            Ask::Status(_) => Kind::Status,
            Ask::Send { .. } => Kind::Document,
            Ask::Definition { .. } => Kind::Definition,
            Ask::Completion(_) => Kind::Completion,
            Ask::Triggers => Kind::Triggers,
        }
    }
}

/// An optional question as values.
pub open spec fn ask_of(ask: Option<Ask>) -> Option<AskView> {
    match ask {
        Some(ask) => Some(ask@),
        None => None,
    }
}

/// What is waiting to be asked, whether the file has been closed, and whether the editor has
/// moved to another one.
pub struct Waiting {
    /// One slot per [`Kind`], in the order of [`IN_ORDER`], so a question replaces the one it
    /// supersedes.
    slots: [Option<Ask>; 5],
    /// Set as the editor goes away. The worker tells the server the file is gone and stops.
    closing: bool,
    /// A file the editor has moved to, waiting for the worker to close the old one and start
    /// asking about this one instead.
    moving_to: Option<String>,
    /// Which file the questions being taken now are about, counted up once per move. It goes
    /// out with every answer so that one worked out before a move can be told apart from one
    /// about the file on screen.
    about: u64,
}

/// A [`Waiting`] as values.
pub struct WaitingView {
    pub slots: Seq<Option<AskView>>,
    pub closing: bool,
    pub moving_to: Option<Seq<char>>,
    pub about: u64,
}

impl View for Waiting {
    type V = WaitingView;

    closed spec fn view(&self) -> WaitingView {
        WaitingView {
            slots: self.slots@.map_values(|slot: Option<Ask>| ask_of(slot)),
            closing: self.closing,
            moving_to: match self.moving_to {
                Some(file_path) => Some(file_path@),
                None => None,
            },
            about: self.about,
        }
    }
}

/// No slot holds anything.
pub open spec fn all_empty(slots: Seq<Option<AskView>>) -> bool {
    &&& slots.len() == 5
    &&& forall|i: int| 0 <= i < 5 ==> #[trigger] slots[i] is None
}

/// The first slot, in the order, that holds a question.
pub open spec fn first_waiting(slots: Seq<Option<AskView>>) -> Option<int> {
    if exists|i: int| 0 <= i < slots.len() && #[trigger] slots[i] is Some {
        Some(
            choose|i: int|
                0 <= i < slots.len() && slots[i] is Some && forall|j: int|
                    0 <= j < i ==> #[trigger] slots[j] is None,
        )
    } else {
        None
    }
}

/// The slots once `ask` is put: it waits in the slot of its kind, in place of whatever of that
/// kind was waiting.
pub open spec fn putting(slots: Seq<Option<AskView>>, ask: AskView) -> Seq<Option<AskView>> {
    slots.update(place_of(kind_of(ask)), Some(ask))
}

/// A question put while another of its kind is still waiting replaces it rather than queuing
/// behind it: two questions of a kind put one after the other leave only the second waiting,
/// and the slots of every other kind as they were.
pub proof fn a_question_replaces_the_one_it_supersedes(
    slots: Seq<Option<AskView>>,
    first: AskView,
    second: AskView,
)
    requires
        slots.len() == 5,
        kind_of(first) == kind_of(second),
    ensures
        putting(putting(slots, first), second) == putting(slots, second),
        putting(slots, second)[place_of(kind_of(second))] == Some(second),
        forall|i: int|
            0 <= i < 5 && i != place_of(kind_of(second)) ==> #[trigger] putting(slots, second)[i]
                == slots[i],
{
    assert(putting(putting(slots, first), second) =~= putting(slots, second));
}

/// The question taken next is the waiting one earliest in [`IN_ORDER`]: while any question is
/// waiting one is taken, and none of an earlier kind is left behind it - so the text, when it
/// is waiting, always goes first.
pub proof fn the_earliest_kind_waiting_goes_first(slots: Seq<Option<AskView>>)
    requires
        slots.len() == 5,
    ensures
        (exists|i: int| 0 <= i < 5 && #[trigger] slots[i] is Some) ==> (first_waiting(slots) matches Some(
            k,
        ) && 0 <= k < 5 && slots[k] is Some && forall|j: int| 0 <= j < k ==> #[trigger] slots[j] is None),
        (forall|i: int| 0 <= i < 5 ==> #[trigger] slots[i] is None) ==> first_waiting(slots) is None,
        slots[0] is Some ==> first_waiting(slots) == Some(0int),
{
    let witness = if slots[0] is Some {
        0int
    } else if slots[1] is Some {
        1int
    } else if slots[2] is Some {
        2int
    } else if slots[3] is Some {
        3int
    } else {
        4int
    };
    if exists|i: int| 0 <= i < 5 && #[trigger] slots[i] is Some {
        assert(slots[witness] is Some && forall|j: int| 0 <= j < witness ==> #[trigger] slots[j] is None);
        let k = first_waiting(slots)->0;
        assert(slots[k] is Some && forall|j: int| 0 <= j < k ==> #[trigger] slots[j] is None);
        if slots[0] is Some {
            if k > 0 {
                assert(slots[0] is None);
            }
        }
    }
}

/// What the worker does next, decided under the lock and done outside it.
pub enum WorkerNext {
    /// The editor is gone: close the file if it was opened, and stop.
    Stop,
    /// The editor is on another file now: close the old one and ask about this one from here.
    MoveTo(String),
    /// A question, and which file it is about.
    Put(Ask, u64),
}

impl Waiting {
    /// Nothing waiting, about the first file.
    pub fn new() -> (waiting: Self)
        ensures
            all_empty(waiting@.slots),
            !waiting@.closing,
            waiting@.moving_to is None,
            waiting@.about == 0,
    {
        let slots: [Option<Ask>; 5] = [None, None, None, None, None];
        let waiting = Waiting { slots, closing: false, moving_to: None, about: 0 };
        proof {
            assert(waiting@.slots =~= seq![None::<AskView>, None, None, None, None]);
        }
        waiting
    }

    /// Which file the questions being taken now are about.
    pub fn about(&self) -> (about: u64)
        ensures
            about == self@.about,
    {
        self.about
    }

    /// Put a question, replacing whatever of the same kind was still waiting to go.
    pub fn put(&mut self, ask: Ask)
        ensures
            final(self)@ == (WaitingView {
                slots: putting(old(self)@.slots, ask@),
                ..old(self)@
            }),
    {
        let slot = ask.kind().slot();
        let ghost put = ask@;
        self.slots[slot] = Some(ask);
        proof {
            assert(self@.slots =~= old(self)@.slots.update(place_of(kind_of(put)), Some(put)));
        }
    }

    /// Ask about `file_path` from here on: everything waiting about the old file is dropped
    /// where it stands, and the file the answers are about is counted on by one.
    pub fn move_to(&mut self, file_path: String) -> (about: u64)
        requires
            old(self)@.about < u64::MAX,
        ensures
            all_empty(final(self)@.slots),
            final(self)@.closing == old(self)@.closing,
            final(self)@.moving_to == Some(file_path@),
            final(self)@.about == old(self)@.about + 1,
            about == final(self)@.about,
    {
        self.slots = [None, None, None, None, None];
        self.moving_to = Some(file_path);
        self.about = self.about + 1;
        self.about
    }

    /// The editor is going away: the worker closes the file and stops.
    pub fn close(&mut self)
        ensures
            final(self)@ == (WaitingView { closing: true, ..old(self)@ }),
    {
        self.closing = true;
    }

    /// The next question to put, in the order [`IN_ORDER`] lays down, out of its slot.
    pub fn take(&mut self) -> (ask: Option<Ask>)
        ensures
            match first_waiting(old(self)@.slots) {
                Some(i) => ask_of(ask) == old(self)@.slots[i] && final(self)@ == (WaitingView {
                    slots: old(self)@.slots.update(i, None),
                    ..old(self)@
                }),
                None => ask is None && final(self)@ == old(self)@,
            },
    {
        let mut i: usize = 0;
        while i < 5
            invariant
                i <= 5,
                self@ == old(self)@,
                forall|j: int| 0 <= j < i ==> #[trigger] self@.slots[j] is None,
            decreases 5 - i,
        {
            if self.slots[i].is_some() {
                let mut taken: Option<Ask> = None;
                std::mem::swap(&mut self.slots[i], &mut taken);
                proof {
                    let slots = old(self)@.slots;
                    assert(slots[i as int] is Some);
                    let first = first_waiting(slots)->0;
                    assert(0 <= first < 5 && slots[first] is Some);
                    assert(first == i) by {
                        if first < i {
                            assert(slots[first] is None);
                        }
                        if first > i {
                            assert(slots[i as int] is None);
                        }
                    }
                    assert(self@.slots =~= slots.update(i as int, None));
                }
                return taken;
            }
            i = i + 1;
        }
        None
    }

    /// What the worker does next: stop where the editor is gone, move where it has moved,
    /// otherwise put the next question - and `None` where there is nothing to do but wait.
    pub fn next_step(&mut self) -> (next: Option<WorkerNext>)
        ensures
            old(self)@.closing ==> (next matches Some(WorkerNext::Stop) && final(self)@ == old(
                self,
            )@),
            !old(self)@.closing && old(self)@.moving_to is Some ==> (next matches Some(
                WorkerNext::MoveTo(file_path),
            ) && Some(file_path@) == old(self)@.moving_to && final(self)@ == (WaitingView {
                moving_to: None,
                ..old(self)@
            })),
            !old(self)@.closing && old(self)@.moving_to is None ==> match first_waiting(
                old(self)@.slots,
            ) {
                Some(i) => (next matches Some(WorkerNext::Put(ask, about)) && Some(ask@)
                    == old(self)@.slots[i] && about == old(self)@.about && final(self)@ == (
                WaitingView { slots: old(self)@.slots.update(i, None), ..old(self)@ })),
                None => next is None && final(self)@ == old(self)@,
            },
    {
        if self.closing {
            return Some(WorkerNext::Stop);
        }
        let moving_to = self.moving_to.take();
        if let Some(file_path) = moving_to {
            return Some(WorkerNext::MoveTo(file_path));
        }
        match self.take() {
            Some(ask) => Some(WorkerNext::Put(ask, self.about)),
            None => None,
        }
    }
}

/// The worker's own record: which file it is asking about, and whether the server has heard
/// of that file - which is what says there is anything to close, at the end and on the way to
/// the next file.
pub struct Worker {
    /// The file the questions are about.
    pub file_path: String,
    /// Whether an open or a change about it has gone through.
    pub opened: bool,
}

impl Worker {
    /// Asking about `file_path`, of which the server has heard nothing yet.
    pub fn new(file_path: String) -> (worker: Self)
        ensures
            worker.file_path@ == file_path@,
            !worker.opened,
    {
        Worker { file_path, opened: false }
    }

    /// The file to close as the worker stops: the one it was asking about, if the server
    /// ever heard of it.
    pub fn stopping(&self) -> (close: Option<String>)
        ensures
            match close {
                Some(file_path) => self.opened && file_path@ == self.file_path@,
                None => !self.opened,
            },
    {
        if self.opened {
            Some(self.file_path.clone())
        } else {
            None
        }
    }

    /// Ask about `file_path` from here on. The file to close on the way is the old one, if
    /// the server ever heard of it; the server has heard nothing of the new one.
    pub fn moving_to(&mut self, file_path: String) -> (close: Option<String>)
        ensures
            match close {
                Some(closed) => old(self).opened && closed@ == old(self).file_path@,
                None => !old(self).opened,
            },
            final(self).file_path@ == file_path@,
            !final(self).opened,
    {
        let mut old_file = file_path;
        std::mem::swap(&mut self.file_path, &mut old_file);
        let close = if self.opened {
            Some(old_file)
        } else {
            None
        };
        self.opened = false;
        close
    }

    /// What became of telling the server the text: once it has heard the file, there is a
    /// file to close.
    pub fn told(&mut self, heard: bool)
        ensures
            final(self).opened == (old(self).opened || heard),
            final(self).file_path == old(self).file_path,
    {
        self.opened = self.opened || heard;
    }
}

} // verus!
