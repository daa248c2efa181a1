//! Keeping a language server's copy of an open file up with what is on screen.
//!
//! A server answers questions about a document it has been told about, and the only thing
//! that knows what is in that document is whatever is showing it. So the editor is what tells
//! the server, and what it has heard is kept here beside the text itself.
//!
//! Three things are sent, and nothing else: the file is opened when its text lands, changed
//! once the typing has stopped, and closed when the last view of it goes. They only ever go
//! for a file something actually serves, which is asked once and remembered.
//!
//! Nothing here calls anything or reads a clock. [`Served::owed`] says what the server is owed
//! this frame and the caller does it however it does such things.

use vstd::prelude::*;

use crate::clock::{elapsed, elapsed_since};
use crate::source::LspStatus;
use crate::text::same_text;

verus! {

/// How long the typing has to have stopped before the server hears the new text, in
/// nanoseconds.
///
/// The whole text goes over on every change, so a call per keystroke would flood the server
/// and, over a network, the link. Four hundred milliseconds is longer than the gap between two
/// keys of ordinary typing and short enough that a click after a brief pause is answered
/// against what is on screen. It is also the pause [`Completing`](crate::Completing) waits
/// before asking what could finish a word: that question is only answerable about text the
/// server has heard, so the two pauses are the same pause.
pub const TYPING_SETTLES_IN: u64 = 400_000_000;

/// How often a server that is still reading the project is asked whether it has finished, in
/// nanoseconds. Once a second while a view waits, and never again once the answer is yes.
pub const STARTING_IS_ASKED_ABOUT_EVERY: u64 = 1_000_000_000;

/// How long after a call that could not reach the server the text is offered again, in
/// nanoseconds. A link that blinks must not cost the file its server for the rest of the
/// session, and trying again every frame would be a call a frame at the exact moment something
/// is already wrong.
pub const TELLING_AGAIN_IN: u64 = 1_000_000_000;

/// One open document, as the server last heard it.
pub struct Document {
    /// Whether the open has gone through. Until it has, the server has never heard of the
    /// file and a change would be a change to nothing.
    pub opened: bool,
    /// Whether a call about this document is in flight. One at a time, so the record of what
    /// the server has heard is only ever written by a call that has come back.
    pub sending: bool,
    /// The text the server last heard, and so what a change is measured against.
    pub sent: String,
    /// The text as the last frame saw it, and the moment it became that: together they are
    /// how long the typing has been stopped for.
    pub seen: String,
    pub seen_at: u64,
    /// Whether the server has finished reading the project.
    pub ready: bool,
    /// Whether a question about that is out, and when the last one was asked.
    pub asking_about_starting: bool,
    pub asked_about_starting_at: u64,
    /// When the last call about the text could not reach the server, until one has.
    pub could_not_tell_at: Option<u64>,
}

/// A [`Document`] as values: the texts as their characters.
pub struct DocumentView {
    pub opened: bool,
    pub sending: bool,
    pub sent: Seq<char>,
    pub seen: Seq<char>,
    pub seen_at: u64,
    pub ready: bool,
    pub asking_about_starting: bool,
    pub asked_about_starting_at: u64,
    pub could_not_tell_at: Option<u64>,
}

impl View for Document {
    type V = DocumentView;

    open spec fn view(&self) -> DocumentView {
        DocumentView {
            opened: self.opened,
            sending: self.sending,
            sent: self.sent@,
            seen: self.seen@,
            seen_at: self.seen_at,
            ready: self.ready,
            asking_about_starting: self.asking_about_starting,
            asked_about_starting_at: self.asked_about_starting_at,
            could_not_tell_at: self.could_not_tell_at,
        }
    }
}

/// What the server is owed about a document right now.
#[derive(Clone, Copy, PartialEq, Eq, Debug, Structural)]
pub enum Owed {
    /// Nothing.
    Nothing,
    /// The first it hears of the file.
    Open,
    /// The text as it now stands.
    Change,
}

/// A document nobody has told the server about yet, made at `now`.
pub open spec fn fresh_document(ready: bool, now: u64) -> DocumentView {
    DocumentView {
        opened: false,
        sending: false,
        sent: Seq::empty(),
        seen: Seq::empty(),
        seen_at: now,
        ready,
        asking_about_starting: false,
        asked_about_starting_at: now,
        could_not_tell_at: None,
    }
}

/// Whether it is time to ask again whether the server has finished starting: never once the
/// answer is yes, never twice at once, and not sooner than a second after the last time.
pub open spec fn wants_the_status_again_at(document: DocumentView, now: u64) -> bool {
    &&& !document.ready
    &&& !document.asking_about_starting
    &&& elapsed(now, document.asked_about_starting_at) >= STARTING_IS_ASKED_ABOUT_EVERY
}

/// The document once a frame showing `text` at `now` has been taken note of: the moment the
/// text last changed moves only when it has changed.
pub open spec fn seeing(document: DocumentView, text: Seq<char>, now: u64) -> DocumentView {
    if document.seen != text {
        DocumentView { seen: text, seen_at: now, ..document }
    } else {
        document
    }
}

/// Whether a call that could not reach the server is too recent to try again.
pub open spec fn holding_off(document: DocumentView, now: u64) -> bool {
    document.could_not_tell_at matches Some(at) && elapsed(now, at) < TELLING_AGAIN_IN
}

/// What to send about a document showing `text` at `now`: nothing while a call is out or for
/// a moment after one could not reach the server, the open the moment the text is there, and
/// a change once the typing has stopped.
pub open spec fn owed_about(document: DocumentView, text: Seq<char>, now: u64) -> Owed {
    if document.sending {
        Owed::Nothing
    } else if holding_off(document, now) {
        Owed::Nothing
    } else if !document.opened {
        Owed::Open
    } else if document.sent == text {
        Owed::Nothing
    } else if elapsed(now, document.seen_at) >= TYPING_SETTLES_IN {
        Owed::Change
    } else {
        Owed::Nothing
    }
}

impl Document {
    /// A document nobody has told the server about yet, for a server that has or has not
    /// finished reading the project. `now` is when the server was found, which is what the
    /// first question about its starting is measured from.
    pub fn new(ready: bool, now: u64) -> (document: Self)
        ensures
            document@ == fresh_document(ready, now),
    {
        Document {
            opened: false,
            sending: false,
            sent: String::new(),
            seen: String::new(),
            seen_at: now,
            ready,
            asking_about_starting: false,
            asked_about_starting_at: now,
            could_not_tell_at: None,
        }
    }

    /// Whether it is time to ask again whether the server has finished starting.
    pub fn wants_the_status_again(&self, now: u64) -> (wants: bool)
        ensures
            wants == wants_the_status_again_at(self@, now),
    {
        !self.ready && !self.asking_about_starting && elapsed_since(now, self.asked_about_starting_at)
            >= STARTING_IS_ASKED_ABOUT_EVERY
    }

    /// Take note of the text this frame is showing, so the pause is measured from the last time
    /// it changed rather than from the first time it differed from what was sent.
    pub fn saw(&mut self, text: &str, now: u64)
        ensures
            final(self)@ == seeing(old(self)@, text@, now),
    {
        if !same_text(&self.seen, text) {
            self.seen = text.to_owned();
            self.seen_at = now;
        }
    }

    /// What to send, if anything.
    pub fn owed(&self, text: &str, now: u64) -> (owed: Owed)
        ensures
            owed == owed_about(self@, text@, now),
    {
        if self.sending {
            return Owed::Nothing;
        }
        if let Some(at) = self.could_not_tell_at {
            if elapsed_since(now, at) < TELLING_AGAIN_IN {
                return Owed::Nothing;
            }
        }
        if !self.opened {
            return Owed::Open;
        }
        if same_text(&self.sent, text) {
            return Owed::Nothing;
        }
        if elapsed_since(now, self.seen_at) >= TYPING_SETTLES_IN {
            Owed::Change
        } else {
            Owed::Nothing
        }
    }
}

/// Whether the server behind a file can answer a question about a place in the text on
/// screen, and when it cannot, why not.
///
/// The two reasons are told apart because they end differently: text the server has not heard
/// is a moment's wait, and a server still reading the project is a wait of tens of seconds.
/// Neither is ever mistaken for an answer.
#[derive(Clone, Copy, PartialEq, Eq, Debug, Structural)]
pub enum CanAnswer {
    /// Not about this text: the server has never heard of the file, or what it heard is
    /// behind what is on screen.
    NotThisText,
    /// Not yet at all: it has the text, but it is still reading the project, and a server
    /// that is still reading answers every question with nothing.
    StillReadingTheProject,
    /// Yes.
    Yes,
}

/// Whether a language server is behind a file, and what it has heard.
pub enum Served {
    /// Nobody has asked yet. Nothing is asked until the text has arrived.
    Unknown,
    /// The question is out.
    Asking,
    /// No server serves this file, which is the normal state of most of a repo. Nothing more
    /// is ever sent about it.
    No,
    /// A server serves it, and this is what it has heard.
    Yes(Document),
}

/// A [`Served`] as values.
pub enum ServedView {
    Unknown,
    Asking,
    No,
    Yes(DocumentView),
}

impl View for Served {
    type V = ServedView;

    open spec fn view(&self) -> ServedView {
        match self {
            Served::Unknown => ServedView::Unknown,
            Served::Asking => ServedView::Asking,
            Served::No => ServedView::No,
            Served::Yes(document) => ServedView::Yes(document@),
        }
    }
}

impl Default for Served {
    /// Nobody has asked yet.
    fn default() -> (served: Self)
        ensures
            served@ == ServedView::Unknown,
    {
        Served::Unknown
    }
}

/// The one call a view owes its server on the frame it is drawing.
#[derive(PartialEq, Eq, Debug)]
pub enum DocumentAsk {
    /// Nobody has asked yet whether anything serves this file. Answered with
    /// [`Served::served_answered`].
    WhetherServed,
    /// The server is still reading the project, and it is time to ask whether it has
    /// finished. Answered with [`Served::starting_answered`].
    WhetherStillStarting,
    /// The whole of the text, as an open or as a change. Answered with [`Served::heard`].
    Send {
        /// What the server is to be told the file holds.
        text: String,
        /// Whether this is the first the server hears of the file.
        opening: bool,
    },
}

/// A [`DocumentAsk`] as values.
pub enum DocumentAskView {
    WhetherServed,
    WhetherStillStarting,
    Send { text: Seq<char>, opening: bool },
}

impl View for DocumentAsk {
    type V = DocumentAskView;

    open spec fn view(&self) -> DocumentAskView {
        match self {
            DocumentAsk::WhetherServed => DocumentAskView::WhetherServed,
            DocumentAsk::WhetherStillStarting => DocumentAskView::WhetherStillStarting,
            DocumentAsk::Send { text, opening } => DocumentAskView::Send {
                text: text@,
                opening: *opening,
            },
        }
    }
}

/// What a view owes its server this frame.
#[derive(PartialEq, Eq, Debug)]
pub struct DocumentOwed {
    /// The call to make, if any. At most one.
    pub ask: Option<DocumentAsk>,
    /// How long from now until the frame this becomes worth acting on, in nanoseconds, when
    /// something is waiting on the typing to settle. A window nobody is typing in draws no
    /// more frames, so the caller asks for one this far off.
    pub draw_again_in: Option<u64>,
}

/// A [`DocumentOwed`] as values.
pub struct DocumentOwedView {
    pub ask: Option<DocumentAskView>,
    pub draw_again_in: Option<u64>,
}

impl View for DocumentOwed {
    type V = DocumentOwedView;

    open spec fn view(&self) -> DocumentOwedView {
        DocumentOwedView {
            ask: match self.ask {
                Some(ask) => Some(ask@),
                None => None,
            },
            draw_again_in: self.draw_again_in,
        }
    }
}

impl Default for DocumentOwed {
    /// Nothing owed.
    fn default() -> (owed: Self)
        ensures
            owed@ == nothing_owed(),
    {
        DocumentOwed { ask: None, draw_again_in: None }
    }
}

/// Nothing to do this frame.
pub open spec fn nothing_owed() -> DocumentOwedView {
    DocumentOwedView { ask: None, draw_again_in: None }
}

/// Whether the server behind a file can answer a question about `text`: only a server that
/// has been told exactly this text, and only once it has finished reading the project.
pub open spec fn can_answer(served: ServedView, text: Seq<char>) -> CanAnswer {
    match served {
        ServedView::Yes(document) => if !document.opened || document.sent != text {
            CanAnswer::NotThisText
        } else if document.ready {
            CanAnswer::Yes
        } else {
            CanAnswer::StillReadingTheProject
        },
        _ => CanAnswer::NotThisText,
    }
}

/// Where a file stands, as the three things a person can be told. Before anything is known it
/// reads as no server.
pub open spec fn status_of(served: ServedView) -> LspStatus {
    match served {
        ServedView::Yes(document) => if document.ready {
            LspStatus::Ready
        } else {
            LspStatus::Starting
        },
        _ => LspStatus::Unavailable,
    }
}

/// A frame showing `text` at `now`, for a file served by a server that has heard `document`:
/// what it becomes, and what is owed.
///
/// A call is owed when [`owed_about`] says so, and marks the document as sending. With nothing
/// to send, the question about a starting server goes when it is due, and a change waiting on
/// the typing asks for the frame it will be sent on.
pub open spec fn document_frame(document: DocumentView, text: Seq<char>, now: u64) -> (
    DocumentView,
    DocumentOwedView,
) {
    let seen = seeing(document, text, now);
    match owed_about(seen, text, now) {
        Owed::Nothing => {
            let waiting = !seen.sending && seen.sent != text;
            let draw_again_in = if waiting {
                Some(TYPING_SETTLES_IN)
            } else {
                None
            };
            if wants_the_status_again_at(seen, now) {
                (
                    DocumentView {
                        asking_about_starting: true,
                        asked_about_starting_at: now,
                        ..seen
                    },
                    DocumentOwedView {
                        ask: Some(DocumentAskView::WhetherStillStarting),
                        draw_again_in,
                    },
                )
            } else {
                (seen, DocumentOwedView { ask: None, draw_again_in })
            }
        },
        owed => (
            DocumentView { sending: true, ..seen },
            DocumentOwedView {
                ask: Some(DocumentAskView::Send { text, opening: owed == Owed::Open }),
                draw_again_in: None,
            },
        ),
    }
}

/// A frame showing `text` at `now`: what the file's state becomes, and what is owed.
pub open spec fn frame(served: ServedView, text: Seq<char>, now: u64) -> (
    ServedView,
    DocumentOwedView,
) {
    match served {
        ServedView::Unknown => (
            ServedView::Asking,
            DocumentOwedView { ask: Some(DocumentAskView::WhetherServed), draw_again_in: None },
        ),
        ServedView::Yes(document) => {
            let (document, owed) = document_frame(document, text, now);
            (ServedView::Yes(document), owed)
        },
        _ => (served, nothing_owed()),
    }
}

/// What the answer to whether anything serves a file makes of it. Starting counts as served:
/// what starts the server is this document being opened.
pub open spec fn served_by(status: LspStatus, now: u64) -> ServedView {
    match status {
        LspStatus::Starting => ServedView::Yes(fresh_document(false, now)),
        LspStatus::Ready => ServedView::Yes(fresh_document(true, now)),
        LspStatus::Unavailable => ServedView::No,
    }
}

/// The answer to whether a starting server has finished: the question is no longer out, and
/// the server is ready exactly when it said so.
pub open spec fn starting_heard(served: ServedView, status: LspStatus) -> ServedView {
    match served {
        ServedView::Yes(document) => ServedView::Yes(
            DocumentView {
                asking_about_starting: false,
                ready: status == LspStatus::Ready,
                ..document
            },
        ),
        served => served,
    }
}

/// The same question come back with nothing to say: it is no longer out.
pub open spec fn starting_unheard(served: ServedView) -> ServedView {
    match served {
        ServedView::Yes(document) => ServedView::Yes(
            DocumentView { asking_about_starting: false, ..document },
        ),
        served => served,
    }
}

/// The server heard `sent`: the call is no longer out, the file is open, and `sent` is what
/// a change is measured against from now on.
pub open spec fn text_heard(served: ServedView, sent: Seq<char>) -> ServedView {
    match served {
        ServedView::Yes(document) => ServedView::Yes(
            DocumentView { sending: false, opened: true, sent, could_not_tell_at: None, ..document },
        ),
        served => served,
    }
}

/// A call that could not reach the server, at `now`: no longer out, and the text is offered
/// again after a pause.
pub open spec fn text_unheard(served: ServedView, now: u64) -> ServedView {
    match served {
        ServedView::Yes(document) => ServedView::Yes(
            DocumentView { sending: false, could_not_tell_at: Some(now), ..document },
        ),
        served => served,
    }
}

impl Served {
    /// Whether the server behind this file can answer a question about a place in `text`
    /// right now. A file nothing serves answers about no text at all.
    pub fn can_answer_about(&self, text: &str) -> (answer: CanAnswer)
        ensures
            answer == can_answer(self@, text@),
    {
        let document = match self {
            Served::Yes(document) => document,
            _ => {
                return CanAnswer::NotThisText;
            },
        };
        if !document.opened || !same_text(&document.sent, text) {
            return CanAnswer::NotThisText;
        }
        if document.ready {
            CanAnswer::Yes
        } else {
            CanAnswer::StillReadingTheProject
        }
    }

    /// Whether a server is behind this file at all.
    pub fn has_a_server(&self) -> (has: bool)
        ensures
            has == (self@ is Yes),
    {
        match self {
            Served::Yes(_) => true,
            _ => false,
        }
    }

    /// Whether the answer has come back that nothing serves this file.
    pub fn nothing_serves_it(&self) -> (nothing: bool)
        ensures
            nothing == (self@ is No),
    {
        match self {
            Served::No => true,
            _ => false,
        }
    }

    /// Whether there is an open document to close: a file whose open never went through has
    /// nothing to tell the server about.
    pub fn was_opened(&self) -> (opened: bool)
        ensures
            opened == (self@ matches ServedView::Yes(document) && document.opened),
    {
        match self {
            Served::Yes(document) => document.opened,
            _ => false,
        }
    }

    /// Where the file stands: no server, a server still reading the project, or one that
    /// will answer. Before anything has been asked this reads as no server.
    pub fn status(&self) -> (status: LspStatus)
        ensures
            status == status_of(self@),
    {
        match self {
            Served::Yes(document) => if document.ready {
                LspStatus::Ready
            } else {
                LspStatus::Starting
            },
            _ => LspStatus::Unavailable,
        }
    }

    /// What the view owes its server on the frame it is drawing, marking down what it is
    /// about to do. `text` is what is on screen now, which after typing is neither what is on
    /// disk nor what the server has heard.
    pub fn owed(&mut self, text: &str, now: u64) -> (owed: DocumentOwed)
        ensures
            (final(self)@, owed@) == frame(old(self)@, text@, now),
    {
        match self {
            Served::Asking | Served::No => DocumentOwed::default(),
            Served::Unknown => {
                *self = Served::Asking;
                DocumentOwed { ask: Some(DocumentAsk::WhetherServed), draw_again_in: None }
            },
            Served::Yes(document) => {
                document.saw(text, now);
                match document.owed(text, now) {
                    Owed::Nothing => {
                        let waiting = !document.sending && !same_text(&document.sent, text);
                        let draw_again_in = if waiting {
                            Some(TYPING_SETTLES_IN)
                        } else {
                            None
                        };
                        let ask = if document.wants_the_status_again(now) {
                            document.asking_about_starting = true;
                            document.asked_about_starting_at = now;
                            Some(DocumentAsk::WhetherStillStarting)
                        } else {
                            None
                        };
                        DocumentOwed { ask, draw_again_in }
                    },
                    owed => {
                        document.sending = true;
                        DocumentOwed {
                            ask: Some(
                                DocumentAsk::Send { text: text.to_owned(), opening: owed == Owed::Open },
                            ),
                            draw_again_in: None,
                        }
                    },
                }
            },
        }
    }

    /// The answer to [`DocumentAsk::WhetherServed`], come back at `now`.
    ///
    /// Whether the server has finished starting is kept rather than folded into whether there
    /// is one, because a question asked of a server still reading the project comes back
    /// empty and reads as an answer.
    pub fn served_answered(&mut self, status: LspStatus, now: u64)
        ensures
            final(self)@ == served_by(status, now),
    {
        *self = match status {
            LspStatus::Starting => Served::Yes(Document::new(false, now)),
            LspStatus::Ready => Served::Yes(Document::new(true, now)),
            LspStatus::Unavailable => Served::No,
        };
    }

    /// The answer to [`DocumentAsk::WhetherStillStarting`]. Nothing is said about it either
    /// way: the question is no longer out, and the server is ready exactly when it said so.
    pub fn starting_answered(&mut self, status: LspStatus)
        ensures
            final(self)@ == starting_heard(old(self)@, status),
    {
        if let Served::Yes(document) = self {
            document.asking_about_starting = false;
            document.ready = status == LspStatus::Ready;
        }
    }

    /// The same question, come back with nothing to say. It is asked again in a moment.
    pub fn starting_could_not_be_asked(&mut self)
        ensures
            final(self)@ == starting_unheard(old(self)@),
    {
        if let Served::Yes(document) = self {
            document.asking_about_starting = false;
        }
    }

    /// The server heard the text that was sent to it.
    pub fn heard(&mut self, sent: String)
        ensures
            final(self)@ == text_heard(old(self)@, sent@),
    {
        if let Served::Yes(document) = self {
            document.sending = false;
            document.opened = true;
            document.sent = sent;
            document.could_not_tell_at = None;
        }
    }

    /// The server could not be told, at `now`. The call is no longer out and what the server
    /// has heard is unchanged, so the same text is offered again - once
    /// [`TELLING_AGAIN_IN`] has gone by, rather than a call a frame while something is wrong.
    pub fn could_not_be_told(&mut self, now: u64)
        ensures
            final(self)@ == text_unheard(old(self)@, now),
    {
        if let Served::Yes(document) = self {
            document.sending = false;
            document.could_not_tell_at = Some(now);
        }
    }
}

/// Nothing is sent about a document while a call about it is out: the record of what the
/// server has heard is only ever written by a call that has come back.
pub proof fn nothing_is_sent_while_a_call_is_out(document: DocumentView, text: Seq<char>, now: u64)
    requires
        document.sending,
    ensures
        !(frame(ServedView::Yes(document), text, now).1.ask matches Some(
            DocumentAskView::Send { .. },
        )),
{
}

/// The server hears of a file first through its opening: until an open has gone through,
/// whatever text is sent goes as an open, never as a change.
pub proof fn the_first_the_server_hears_is_the_open(document: DocumentView, text: Seq<char>, now: u64)
    requires
        !document.opened,
    ensures
        frame(ServedView::Yes(document), text, now).1.ask matches Some(
            DocumentAskView::Send { opening, .. },
        ) ==> opening,
        !document.sending && !holding_off(document, now) ==> frame(
            ServedView::Yes(document),
            text,
            now,
        ).1.ask == Some(DocumentAskView::Send { text, opening: true }),
{
}

/// A keystroke is never sent on the frame it was typed: where the text on screen differs from
/// what the last frame saw, no change goes - the pause starts over from this frame instead.
pub proof fn a_keystroke_sends_no_change(document: DocumentView, text: Seq<char>, now: u64)
    requires
        document.opened,
        document.seen != text,
    ensures
        !(frame(ServedView::Yes(document), text, now).1.ask matches Some(
            DocumentAskView::Send { .. },
        )),
        frame(ServedView::Yes(document), text, now).0 matches ServedView::Yes(after)
            && after.seen == text && after.seen_at == now,
{
}

/// Once the typing has stopped for [`TYPING_SETTLES_IN`], the text on screen goes to the
/// server as a change - provided it is not what the server already has, no call is out, and
/// none has just failed.
pub proof fn a_settled_change_is_sent(document: DocumentView, text: Seq<char>, now: u64)
    requires
        document.opened,
        !document.sending,
        !holding_off(document, now),
        document.seen == text,
        document.sent != text,
        elapsed(now, document.seen_at) >= TYPING_SETTLES_IN,
    ensures
        frame(ServedView::Yes(document), text, now).1.ask == Some(
            DocumentAskView::Send { text, opening: false },
        ),
        frame(ServedView::Yes(document), text, now).0 matches ServedView::Yes(after)
            && after.sending,
{
}

/// Whether anything serves a file is asked once: the frame that asks marks the question out,
/// and every frame after it owes nothing until the answer comes back.
pub proof fn whether_served_is_asked_once(
    first: Seq<char>,
    first_at: u64,
    second: Seq<char>,
    second_at: u64,
)
    ensures
        frame(ServedView::Unknown, first, first_at).1.ask == Some(
            DocumentAskView::WhetherServed,
        ),
        frame(frame(ServedView::Unknown, first, first_at).0, second, second_at).1 == nothing_owed(),
        frame(frame(ServedView::Unknown, first, first_at).0, second, second_at).0
            == ServedView::Asking,
{
}

/// A file nothing serves is never spoken of again: every frame owes nothing at all, not even
/// a frame asked for on its behalf, and no answer that comes back changes that.
pub proof fn nothing_serves_it_for_good(text: Seq<char>, now: u64, status: LspStatus, sent: Seq<char>)
    ensures
        frame(ServedView::No, text, now) == (ServedView::No, nothing_owed()),
        starting_heard(ServedView::No, status) == ServedView::No,
        starting_unheard(ServedView::No) == ServedView::No,
        text_heard(ServedView::No, sent) == ServedView::No,
        text_unheard(ServedView::No, now) == ServedView::No,
{
}

/// A server still reading the project is asked whether it has finished, never once it has,
/// never twice at once, and no sooner than [`STARTING_IS_ASKED_ABOUT_EVERY`] after the last
/// time: the frame after it asks does not ask again.
pub proof fn whether_still_starting_is_asked_one_at_a_time(
    document: DocumentView,
    text: Seq<char>,
    now: u64,
    later_text: Seq<char>,
    later: u64,
)
    requires
        frame(ServedView::Yes(document), text, now).1.ask == Some(
            DocumentAskView::WhetherStillStarting,
        ),
    ensures
        !document.ready,
        !document.asking_about_starting,
        elapsed(now, document.asked_about_starting_at) >= STARTING_IS_ASKED_ABOUT_EVERY,
        frame(frame(ServedView::Yes(document), text, now).0, later_text, later).1.ask != Some(
            DocumentAskView::WhetherStillStarting,
        ),
{
}

/// What the server heard is what it can be asked about: once it has heard `sent`, a question
/// about `sent` is answerable - by a ready server now, by a starting one once it has read the
/// project - and a question about any other text is not.
pub proof fn what_was_heard_is_what_can_be_answered(
    document: DocumentView,
    sent: Seq<char>,
    other: Seq<char>,
)
    requires
        other != sent,
    ensures
        can_answer(text_heard(ServedView::Yes(document), sent), sent) == if document.ready {
            CanAnswer::Yes
        } else {
            CanAnswer::StillReadingTheProject
        },
        can_answer(text_heard(ServedView::Yes(document), sent), other) == CanAnswer::NotThisText,
{
}

/// A server that is still starting is a server: the answer that one is starting serves the
/// file and reads as starting, never as no server at all - and no text is answerable until
/// the server has heard it.
pub proof fn starting_is_not_unavailable(now: u64, text: Seq<char>)
    ensures
        status_of(served_by(LspStatus::Starting, now)) == LspStatus::Starting,
        served_by(LspStatus::Starting, now) is Yes,
        can_answer(served_by(LspStatus::Starting, now), text) == CanAnswer::NotThisText,
        can_answer(served_by(LspStatus::Ready, now), text) == CanAnswer::NotThisText,
{
}

/// A call that could not reach the server costs the file nothing but a pause: no frame within
/// [`TELLING_AGAIN_IN`] of the failure sends anything, and the first frame after it offers the
/// same text again, as an open if the server never heard the file.
pub proof fn a_failed_call_is_made_again_after_a_pause(
    document: DocumentView,
    failed_at: u64,
    text: Seq<char>,
    now: u64,
)
    requires
        !document.opened,
    ensures
        elapsed(now, failed_at) < TELLING_AGAIN_IN ==> !(frame(
            text_unheard(ServedView::Yes(document), failed_at),
            text,
            now,
        ).1.ask matches Some(DocumentAskView::Send { .. })),
        elapsed(now, failed_at) >= TELLING_AGAIN_IN ==> frame(
            text_unheard(ServedView::Yes(document), failed_at),
            text,
            now,
        ).1.ask == Some(DocumentAskView::Send { text, opening: true }),
        text_unheard(ServedView::Yes(document), failed_at) is Yes,
{
}

/// What a run of frames owes, one after another: the frame showing `texts[i]` at `times[i]`
/// on the state the frames before it left.
pub open spec fn frames(served: ServedView, texts: Seq<Seq<char>>, times: Seq<u64>) -> Seq<
    DocumentOwedView,
>
    decreases texts.len(),
{
    if texts.len() == 0 || times.len() == 0 {
        Seq::empty()
    } else {
        let (next, owed) = frame(served, texts[0], times[0]);
        seq![owed] + frames(next, texts.drop_first(), times.drop_first())
    }
}

/// A burst of typing sends nothing: while every frame shows text the frame before it did not,
/// no change goes to the server, however long the burst - the text goes once, after the typing
/// has stopped.
pub proof fn a_burst_of_typing_sends_nothing(
    document: DocumentView,
    texts: Seq<Seq<char>>,
    times: Seq<u64>,
)
    requires
        document.opened,
        texts.len() == times.len(),
        texts.len() > 0 ==> texts[0] != document.seen,
        forall|i: int| 0 < i < texts.len() ==> #[trigger] texts[i] != texts[i - 1],
    ensures
        frames(ServedView::Yes(document), texts, times).len() == texts.len(),
        forall|i: int|
            0 <= i < texts.len() ==> !(#[trigger] frames(ServedView::Yes(document), texts, times)[i].ask matches Some(
                DocumentAskView::Send { .. },
            )),
    decreases texts.len(),
{
    if texts.len() > 0 {
        a_keystroke_sends_no_change(document, texts[0], times[0]);
        let (next, owed) = frame(ServedView::Yes(document), texts[0], times[0]);
        let after = match next {
            ServedView::Yes(after) => after,
            _ => document,
        };
        let rest = texts.drop_first();
        assert forall|i: int| 0 < i < rest.len() implies #[trigger] rest[i] != rest[i - 1] by {
            assert(rest[i] == texts[i + 1]);
            assert(rest[i - 1] == texts[i]);
        }
        if rest.len() > 0 {
            assert(rest[0] == texts[1]);
        }
        a_burst_of_typing_sends_nothing(after, rest, times.drop_first());
        let all = frames(ServedView::Yes(document), texts, times);
        let later = frames(next, rest, times.drop_first());
        assert(all == seq![owed] + later);
        assert forall|i: int| 0 <= i < texts.len() implies !(#[trigger] all[i].ask matches Some(
            DocumentAskView::Send { .. },
        )) by {
            if i > 0 {
                assert(all[i] == later[i - 1]);
            }
        }
    }
}

} // verus!
