//! The assembled thing, as decisions: what a code editor does with each answer that comes back,
//! what it owes its server on each frame, and what a modifier-click comes to.
//!
//! The editor itself - the widget that owns the buffer, the window it draws in, and the worker
//! its questions go on - stands outside the library. Each frame it drains what came back into
//! [`EditorState::hear`], draws, and then asks [`EditorState::keep_the_document_up`],
//! [`EditorState::look_up`] and [`EditorState::follow_the_caret`] what it owes, in that order.

use vstd::prelude::*;

use crate::asking::{Ask, AskView, Heard, StatusAbout};
use crate::completing::{
    answering, AtTheCaret, Completing, CompletingNext, CompletingView, following, idle,
    question_at,
};
use crate::definition::{asking_about, asks_about, still_starting, AsksAbout};
use crate::document::{
    can_answer, frame, served_by, starting_heard, status_of, text_heard, text_unheard, DocumentAsk,
    DocumentAskView, Served, ServedView, TYPING_SETTLES_IN,
};
use crate::source::{LspCompletion, LspLocation, LspPosition, LspStatus, text_of};
use crate::widget::{EditorReport, Word, WordView};

verus! {

/// What a modifier-click on a name came to.
pub enum Definition {
    /// The server answered. Several places is the several the language really has; empty is a
    /// server that had nothing to say, or one that could not be asked.
    Places {
        /// The name that was clicked.
        word: Word,
        /// Everywhere the server says it is defined.
        places: Vec<LspLocation>,
    },
    /// The server was asked while it was still reading the project and answered with nothing,
    /// which from such a server is the wait rather than an answer. The string is the sentence
    /// to show - see [`still_starting`].
    StillStarting(String),
    /// Nothing serves this file, so there was nobody to ask.
    NoServer(Word),
}

/// A place a name is defined, as values.
pub struct LocationView {
    pub file_path: Seq<char>,
    pub line_number: usize,
}

impl View for LspLocation {
    type V = LocationView;

    open spec fn view(&self) -> LocationView {
        LocationView { file_path: self.file_path@, line_number: self.line_number }
    }
}

/// A [`Definition`] as values.
pub enum DefinitionView {
    Places { word: WordView, places: Seq<LocationView> },
    StillStarting(Seq<char>),
    NoServer(WordView),
}

impl View for Definition {
    type V = DefinitionView;

    open spec fn view(&self) -> DefinitionView {
        match self {
            Definition::Places { word, places } => DefinitionView::Places {
                word: word@,
                places: places@.map_values(|place: LspLocation| place@),
            },
            Definition::StillStarting(said) => DefinitionView::StillStarting(said@),
            Definition::NoServer(word) => DefinitionView::NoServer(word@),
        }
    }
}

/// An optional definition as values.
pub open spec fn definition_of(definition: Option<Definition>) -> Option<DefinitionView> {
    match definition {
        Some(definition) => Some(definition@),
        None => None,
    }
}

/// A modifier-click whose question is still out.
pub struct LookingUp {
    /// The name that was clicked. A second click replaces this one, so the first one's answer is
    /// thrown away when it lands.
    pub word: Word,
    /// Whether the server had not finished reading the project when it was asked: what has to
    /// be remembered until the answer lands is how an empty one is allowed to read.
    pub asked_while_starting: bool,
}

/// What a code editor on one file knows of its server and of the questions it has put.
pub struct EditorState {
    /// The name of the server that serves the file, as the table of languages has it, for the
    /// sentence a click answered during the wait reads as.
    pub server: Option<String>,
    /// Whether a server is behind the file, and what it has heard of the buffer.
    pub served: Served,
    /// What is on offer under the caret, and what has been asked about it.
    pub completing: Completing,
    /// The characters the server said open a list on their own, once it has been asked. Empty
    /// until then and for a server that named none.
    pub triggers: Vec<char>,
    /// Whether that question has been put. Once per file: the answer does not change while the
    /// server runs.
    pub asked_what_opens_a_list: bool,
    /// The modifier-click whose question is out, if one is.
    pub looking_up: Option<LookingUp>,
    /// An answer that came back, waiting to go out on the next frame's output.
    pub landed: Option<Definition>,
}

/// An [`EditorState`] as values.
pub struct EditorStateView {
    pub server: Option<Seq<char>>,
    pub served: ServedView,
    pub completing: CompletingView,
    pub triggers: Seq<char>,
    pub asked_what_opens_a_list: bool,
    pub looking_up: Option<(WordView, bool)>,
    pub landed: Option<DefinitionView>,
}

impl View for EditorState {
    type V = EditorStateView;

    open spec fn view(&self) -> EditorStateView {
        EditorStateView {
            server: text_of(self.server),
            served: self.served@,
            completing: self.completing@,
            triggers: self.triggers@,
            asked_what_opens_a_list: self.asked_what_opens_a_list,
            looking_up: match self.looking_up {
                Some(looking_up) => Some((looking_up.word@, looking_up.asked_while_starting)),
                None => None,
            },
            landed: definition_of(self.landed),
        }
    }
}

/// A file nothing has been asked about yet, served by `server` where the table of languages
/// names one.
pub open spec fn starting_on(server: Option<Seq<char>>) -> EditorStateView {
    EditorStateView {
        server,
        served: ServedView::Unknown,
        completing: idle(),
        triggers: Seq::empty(),
        asked_what_opens_a_list: false,
        looking_up: None,
        landed: None,
    }
}

/// The sentence a click answered with nothing during the wait reads as.
pub open spec fn still_starting_said(server: Option<Seq<char>>) -> Seq<char> {
    match server {
        Some(server) => server + " is still indexing this project - try again in a moment"@,
        None => "the language server is still starting - try again in a moment"@,
    }
}

/// What a definition coming back for `word` makes of the editor.
///
/// An answer about a click that is no longer the one out - a second click replaced it - is
/// thrown away. Otherwise the click is no longer out, and what landed is the places; except
/// that nothing from a server that had not read the project when it was asked is the wait
/// showing through, and lands as the sentence that says so.
pub open spec fn definition_heard(
    state: EditorStateView,
    word: WordView,
    places: Seq<LocationView>,
) -> EditorStateView {
    match state.looking_up {
        Some((clicked, asked_while_starting)) => if clicked == word {
            EditorStateView {
                looking_up: None,
                landed: Some(
                    if places.len() == 0 && asked_while_starting {
                        DefinitionView::StillStarting(still_starting_said(state.server))
                    } else {
                        DefinitionView::Places { word, places }
                    },
                ),
                ..state
            }
        } else {
            state
        },
        None => state,
    }
}

/// A [`Heard`] as values.
pub enum HeardView {
    Status { about: StatusAbout, status: LspStatus },
    Told { text: Seq<char>, heard: bool },
    Definition { word: WordView, places: Option<Seq<LocationView>> },
    Triggers(Seq<char>),
    Completion { asked: crate::completing::AskedView, rows: Option<Seq<crate::source::LspCompletionView>> },
}

impl View for Heard {
    type V = HeardView;

    open spec fn view(&self) -> HeardView {
        match self {
            Heard::Status { about, status } => HeardView::Status { about: *about, status: *status },
            Heard::Told { text, heard } => HeardView::Told { text: text@, heard: *heard },
            Heard::Definition { word, places } => HeardView::Definition {
                word: word@,
                places: match places {
                    Some(places) => Some(places@.map_values(|place: LspLocation| place@)),
                    None => None,
                },
            },
            Heard::Triggers(characters) => HeardView::Triggers(characters@),
            Heard::Completion { asked, rows } => HeardView::Completion {
                asked: asked@,
                rows: match rows {
                    Some(rows) => Some(rows@.map_values(|row: LspCompletion| row@)),
                    None => None,
                },
            },
        }
    }
}

/// What one answer, come back at `now`, makes of the editor. `follows_the_caret` is the
/// character the caret sits in front of at the place a completion was asked about, which keeps
/// a call being completed over from a second pair of parentheses.
pub open spec fn hearing(
    state: EditorStateView,
    heard: HeardView,
    follows_the_caret: Option<char>,
    now: u64,
) -> EditorStateView {
    match heard {
        HeardView::Status { about: StatusAbout::WhetherServed, status } => EditorStateView {
            served: served_by(status, now),
            ..state
        },
        HeardView::Status { about: StatusAbout::WhetherStillStarting, status } => EditorStateView {
            served: starting_heard(state.served, status),
            ..state
        },
        HeardView::Told { text, heard } => EditorStateView {
            served: if heard {
                text_heard(state.served, text)
            } else {
                text_unheard(state.served, now)
            },
            ..state
        },
        HeardView::Definition { word, places } => definition_heard(
            state,
            word,
            match places {
                Some(places) => places,
                None => Seq::empty(),
            },
        ),
        HeardView::Triggers(characters) => EditorStateView { triggers: characters, ..state },
        HeardView::Completion { asked, rows } => EditorStateView {
            completing: answering(state.completing, asked, rows, follows_the_caret),
            ..state
        },
    }
}

/// What the editor owes the worker after a step: the questions to put, in order, and how long
/// from now the frame is that something waiting becomes worth acting on.
pub struct Owing {
    /// The questions to put.
    pub asks: Vec<Ask>,
    /// How long until the next frame is needed, in nanoseconds, if one is.
    pub draw_again_in: Option<u64>,
}

/// The questions of an [`Owing`] as values.
pub open spec fn asks_of(owing: Owing) -> Seq<AskView> {
    owing.asks@.map_values(|ask: Ask| ask@)
}

/// What a document call comes to as a question for the worker.
pub open spec fn document_ask(ask: DocumentAskView) -> AskView {
    match ask {
        DocumentAskView::WhetherServed => AskView::Status(StatusAbout::WhetherServed),
        DocumentAskView::WhetherStillStarting => AskView::Status(StatusAbout::WhetherStillStarting),
        DocumentAskView::Send { text, opening } => AskView::Send { text, opening },
    }
}

/// What a modifier-click comes to.
pub enum LookUp {
    /// There is nobody to ask, and this is the answer now.
    Landed(Definition),
    /// Put this question, and the answer lands on a later frame.
    Ask(Ask),
}

/// Whether to ask what opens a list: once per file, and only of a server that has finished
/// starting, since the answer comes out of what a server says as it starts and one that has
/// not started has not said it.
pub open spec fn wants_the_triggers(state: EditorStateView) -> bool {
    !state.asked_what_opens_a_list && status_of(state.served) == LspStatus::Ready
}

impl EditorState {
    /// An editor on a file nothing has been asked about yet, served by `server` where the
    /// table of languages names one.
    pub fn new(server: Option<String>) -> (state: Self)
        ensures
            state@ == starting_on(text_of(server)),
    {
        EditorState {
            server,
            served: Served::Unknown,
            completing: Completing::default(),
            triggers: Vec::new(),
            asked_what_opens_a_list: false,
            looking_up: None,
            landed: None,
        }
    }

    /// Another file, which is what following a jump comes to: a different file is a different
    /// question in every one of these - whether anything serves it, what the server has heard,
    /// what is on offer, what a click still out was about, and what opens a list.
    pub fn open(&mut self, server: Option<String>)
        ensures
            final(self)@ == starting_on(text_of(server)),
    {
        *self = EditorState::new(server);
    }

    /// Where the file stands with its language server.
    pub fn status(&self) -> (status: LspStatus)
        ensures
            status == status_of(self@.served),
    {
        self.served.status()
    }

    /// Take in one answer from the worker, come back at `now`.
    pub fn hear(&mut self, heard: Heard, follows_the_caret: Option<char>, now: u64)
        ensures
            final(self)@ == hearing(old(self)@, heard@, follows_the_caret, now),
    {
        match heard {
            Heard::Status { about: StatusAbout::WhetherServed, status } => {
                self.served.served_answered(status, now);
            },
            Heard::Status { about: StatusAbout::WhetherStillStarting, status } => {
                self.served.starting_answered(status);
            },
            Heard::Told { text, heard } => {
                if heard {
                    self.served.heard(text);
                } else {
                    self.served.could_not_be_told(now);
                }
            },
            Heard::Definition { word, places } => {
                let clicked = match &self.looking_up {
                    Some(looking_up) => looking_up.word.same_as(&word),
                    None => false,
                };
                if !clicked {
                    return;
                }
                let asked_while_starting = match &self.looking_up {
                    Some(looking_up) => looking_up.asked_while_starting,
                    None => false,
                };
                self.looking_up = None;
                let places = match places {
                    Some(places) => places,
                    None => {
                        let none: Vec<LspLocation> = Vec::new();
                        proof {
                            assert(none@.map_values(|place: LspLocation| place@) =~= Seq::<
                                LocationView,
                            >::empty());
                        }
                        none
                    },
                };
                let landed = if places.len() == 0 && asked_while_starting {
                    let server = match &self.server {
                        Some(server) => Some(server.as_str()),
                        None => None,
                    };
                    Definition::StillStarting(still_starting(server))
                } else {
                    Definition::Places { word, places }
                };
                self.landed = Some(landed);
            },
            Heard::Triggers(characters) => {
                self.triggers = characters;
            },
            Heard::Completion { asked, rows } => {
                self.completing.answered(&asked, rows, follows_the_caret);
            },
        }
    }

    /// Tell the server what is on screen, when it is owed anything.
    pub fn keep_the_document_up(&mut self, text: &str, now: u64) -> (owing: Owing)
        ensures
            final(self)@ == (EditorStateView { served: frame(old(self)@.served, text@, now).0, ..old(self)@ }),
            asks_of(owing) == match frame(old(self)@.served, text@, now).1.ask {
                Some(ask) => seq![document_ask(ask)],
                None => Seq::empty(),
            },
            owing.draw_again_in == frame(old(self)@.served, text@, now).1.draw_again_in,
    {
        let owed = self.served.owed(text, now);
        let mut asks: Vec<Ask> = Vec::new();
        match owed.ask {
            Some(DocumentAsk::WhetherServed) => asks.push(Ask::Status(StatusAbout::WhetherServed)),
            Some(DocumentAsk::WhetherStillStarting) => asks.push(
                Ask::Status(StatusAbout::WhetherStillStarting),
            ),
            Some(DocumentAsk::Send { text, opening }) => asks.push(Ask::Send { text, opening }),
            None => {},
        }
        let owing = Owing { asks, draw_again_in: owed.draw_again_in };
        proof {
            assert(asks_of(owing) =~= match frame(old(self)@.served, text@, now).1.ask {
                Some(ask) => seq![document_ask(ask)],
                None => Seq::empty(),
            });
        }
        owing
    }

    /// A name was modifier-clicked. Ask the server where it is defined, or say there is nobody
    /// to ask.
    ///
    /// A server that has not finished reading the project is asked too; whether it had is
    /// remembered, because it only matters if the answer comes back empty.
    pub fn look_up(&mut self, word: Word) -> (look_up: LookUp)
        ensures
            asking_about(status_of(old(self)@.served)) == AsksAbout::Nobody ==> (look_up matches LookUp::Landed(
                definition,
            ) && definition@ == DefinitionView::NoServer(word@) && final(self)@ == old(self)@),
            asking_about(status_of(old(self)@.served)) != AsksAbout::Nobody ==> (look_up matches LookUp::Ask(
                ask,
            ) && ask@ == AskView::Definition {
                word: word@,
                at: LspPosition { line: word.at.line, column: word.at.column },
            } && final(self)@ == (EditorStateView {
                looking_up: Some(
                    (
                        word@,
                        asking_about(status_of(old(self)@.served))
                            == AsksAbout::ServerThatIsStillStarting,
                    ),
                ),
                ..old(self)@
            })),
    {
        let asks = asks_about(self.served.status());
        if !asks.asks() {
            return LookUp::Landed(Definition::NoServer(word));
        }
        let at = LspPosition { line: word.at.line, column: word.at.column };
        self.looking_up = Some(
            LookingUp { word: word.copied(), asked_while_starting: asks.an_empty_answer_is_only_the_wait() },
        );
        LookUp::Ask(Ask::Definition { word, at })
    }

    /// Ask the server what opens a completion list on its own, once there is a server up to
    /// have said it.
    pub fn ask_what_opens_a_list(&mut self) -> (ask: Option<Ask>)
        ensures
            wants_the_triggers(old(self)@) ==> (ask matches Some(ask) && ask@ == AskView::Triggers
                && final(self)@ == (EditorStateView { asked_what_opens_a_list: true, ..old(self)@ })),
            !wants_the_triggers(old(self)@) ==> ask is None && final(self)@ == old(self)@,
    {
        if self.asked_what_opens_a_list || self.served.status() != LspStatus::Ready {
            return None;
        }
        self.asked_what_opens_a_list = true;
        Some(Ask::Triggers)
    }

    /// Ask what could be typed where the caret is, when it is worth asking. A file nothing
    /// serves never asks anything.
    ///
    /// `typed` is the character the caret sits behind, off the buffer as it stands: with the
    /// server's own list beside it, that is what says whether a `.` just typed is worth a
    /// question of its own.
    pub fn follow_the_caret(&mut self, output: &EditorReport, typed: Option<char>, text: &str, now: u64) -> (owing: Owing)
        ensures
            !(old(self)@.served is Yes) ==> (final(self)@ == old(self)@ && asks_of(owing) == Seq::<AskView>::empty() && owing.draw_again_in is None),
            old(self)@.served is Yes ==> ({
                let triggered = if wants_the_triggers(old(self)@) {
                    EditorStateView { asked_what_opens_a_list: true, ..old(self)@ }
                } else {
                    old(self)@
                };
                let triggers_ask: Seq<AskView> = if wants_the_triggers(old(self)@) {
                    seq![AskView::Triggers]
                } else {
                    Seq::empty()
                };
                let (completing, next) = following(
                    old(self)@.completing,
                    output.completion_taken || output.completion_dismissed,
                    question_at(
                        match output.word_being_typed {
                            Some(word) => Some(word.text@),
                            None => None,
                        },
                        output.caret,
                        typed matches Some(typed) && old(self)@.triggers.contains(typed),
                    ),
                    output.focused,
                    can_answer(old(self)@.served, text@),
                    now,
                );
                &&& final(self)@ == (EditorStateView { completing, ..triggered })
                &&& asks_of(owing) == match next {
                    crate::completing::CompletingNextView::Ask(asked) => triggers_ask.push(AskView::Completion(asked)),
                    _ => triggers_ask,
                }
                &&& owing.draw_again_in == match next {
                    crate::completing::CompletingNextView::Wait => Some(TYPING_SETTLES_IN),
                    _ => None,
                }
            }),
    {
        let mut asks: Vec<Ask> = Vec::new();
        if !self.served.has_a_server() {
            return Owing { asks, draw_again_in: None };
        }
        if let Some(ask) = self.ask_what_opens_a_list() {
            asks.push(ask);
        }
        let answerable = self.served.can_answer_about(text);
        let at_the_caret = AtTheCaret { typed, triggers: self.triggers.as_slice() };
        let mut draw_again_in: Option<u64> = None;
        match self.completing.follow(output, at_the_caret, answerable, now) {
            CompletingNext::Nothing => {},
            CompletingNext::Wait => {
                draw_again_in = Some(TYPING_SETTLES_IN);
            },
            CompletingNext::Ask(asked) => {
                asks.push(Ask::Completion(asked));
            },
        }
        let owing = Owing { asks, draw_again_in };
        proof {
            let triggers_ask: Seq<AskView> = if wants_the_triggers(old(self)@) {
                seq![AskView::Triggers]
            } else {
                Seq::empty()
            };
            assert(asks_of(owing) =~= match following(
                old(self)@.completing,
                output.completion_taken || output.completion_dismissed,
                question_at(
                    match output.word_being_typed {
                        Some(word) => Some(word.text@),
                        None => None,
                    },
                    output.caret,
                    typed matches Some(typed) && old(self)@.triggers.contains(typed),
                ),
                output.focused,
                can_answer(old(self)@.served, text@),
                now,
            ).1 {
                crate::completing::CompletingNextView::Ask(asked) => triggers_ask.push(AskView::Completion(asked)),
                _ => triggers_ask,
            });
        }
        owing
    }

    /// What a frame's output says a click came to: the answer to a click made this frame if
    /// there is one, and otherwise an answer that landed since the last frame, taken out.
    pub fn take_landed(&mut self, clicked: Option<Definition>) -> (definition: Option<Definition>)
        ensures
            clicked is Some ==> definition_of(definition) == definition_of(clicked) && final(self)@ == old(self)@,
            clicked is None ==> definition_of(definition) == old(self)@.landed && final(self)@ == (EditorStateView { landed: None, ..old(self)@ }),
    {
        match clicked {
            Some(clicked) => Some(clicked),
            None => self.landed.take(),
        }
    }
}

/// The answer to a click that a second click has since replaced is thrown away rather than
/// landing the person on the older of the two names.
pub proof fn a_replaced_click_lands_nothing(
    state: EditorStateView,
    word: WordView,
    places: Seq<LocationView>,
)
    requires
        state.looking_up matches Some((clicked, _)) && clicked != word,
    ensures
        definition_heard(state, word, places) == state,
{
}

/// Nothing from a server that had not read the project when the click was put to it is the
/// wait and not an answer, and nothing from one that had is the answer that the name is
/// defined nowhere; anything the server did name is the answer either way.
pub proof fn an_empty_answer_during_the_wait_is_the_wait(
    state: EditorStateView,
    word: WordView,
    places: Seq<LocationView>,
)
    requires
        state.looking_up matches Some((clicked, _)) && clicked == word,
    ensures
        definition_heard(state, word, places).looking_up is None,
        (places.len() == 0 && state.looking_up == Some((word, true))) ==> definition_heard(
            state,
            word,
            places,
        ).landed == Some(DefinitionView::StillStarting(still_starting_said(state.server))),
        (places.len() > 0 || state.looking_up == Some((word, false))) ==> definition_heard(
            state,
            word,
            places,
        ).landed == Some(DefinitionView::Places { word, places }),
{
}

/// A click is put to a server whether or not it has finished reading the project, and only a
/// file nothing serves has nobody to ask; what is remembered for the answer is whether the
/// server was still starting.
pub proof fn a_click_is_put_to_any_server(status: LspStatus)
    ensures
        (asking_about(status) != AsksAbout::Nobody) == (status != LspStatus::Unavailable),
        (asking_about(status) == AsksAbout::ServerThatIsStillStarting) == (status
            == LspStatus::Starting),
{
}

/// What opens a list is asked once per file: once it has been asked, it is not asked again
/// until another file is opened.
pub proof fn what_opens_a_list_is_asked_once(state: EditorStateView, server: Option<Seq<char>>)
    ensures
        !wants_the_triggers(EditorStateView { asked_what_opens_a_list: true, ..state }),
        !wants_the_triggers(starting_on(server)),
{
}

/// What opens a list is asked only of a server that has finished starting: a server still
/// starting has not said it yet, and its empty answer would stand for the life of the file. A
/// file whose server is starting, or that nothing serves, is never asked.
pub proof fn what_opens_a_list_is_asked_only_of_a_ready_server(state: EditorStateView)
    ensures
        wants_the_triggers(state) ==> status_of(state.served) == LspStatus::Ready,
        status_of(state.served) != LspStatus::Ready ==> !wants_the_triggers(state),
        (!state.asked_what_opens_a_list && status_of(state.served) == LspStatus::Ready)
            ==> wants_the_triggers(state),
{
}

/// Hearing that a text did not reach the server leaves no call out and changes nothing the
/// server has heard; the same text is owed again once [`TELLING_AGAIN_IN`] has gone by, and
/// nothing is sent before then.
pub proof fn a_send_that_was_not_heard_is_made_again(
    state: EditorStateView,
    document: crate::document::DocumentView,
    text: Seq<char>,
    follows_the_caret: Option<char>,
    now: u64,
    on_screen: Seq<char>,
    later: u64,
)
    requires
        state.served == ServedView::Yes(document),
        !document.opened,
    ensures
        hearing(state, HeardView::Told { text, heard: false }, follows_the_caret, now).served matches ServedView::Yes(
            after,
        ) && !after.sending && after.opened == document.opened && after.sent == document.sent,
        crate::clock::elapsed(later, now) >= crate::document::TELLING_AGAIN_IN ==> frame(
            hearing(state, HeardView::Told { text, heard: false }, follows_the_caret, now).served,
            on_screen,
            later,
        ).1.ask == Some(DocumentAskView::Send { text: on_screen, opening: true }),
        crate::clock::elapsed(later, now) < crate::document::TELLING_AGAIN_IN ==> !(frame(
            hearing(state, HeardView::Told { text, heard: false }, follows_the_caret, now).served,
            on_screen,
            later,
        ).1.ask matches Some(DocumentAskView::Send { .. })),
{
}

/// Each answer from the worker reaches the one part of the editor it is about, and the rest of
/// the editor is as it was: whether the file is served reads as the status the server gave; a
/// text the server heard is what can be asked about from then on, by a ready server; what
/// opens a list is what the server named; and a completion answer reaches only the completion
/// list.
pub proof fn each_answer_reaches_only_what_it_is_about(
    state: EditorStateView,
    heard: HeardView,
    follows_the_caret: Option<char>,
    now: u64,
)
    ensures
        heard matches HeardView::Status { about: StatusAbout::WhetherServed, status } ==> (
        status_of(hearing(state, heard, follows_the_caret, now).served) == status && (hearing(
            state,
            heard,
            follows_the_caret,
            now,
        ).served is No <==> status == LspStatus::Unavailable)),
        heard matches HeardView::Status { about: StatusAbout::WhetherStillStarting, status } ==> (
        state.served is Yes ==> status_of(hearing(state, heard, follows_the_caret, now).served) == (
        if status == LspStatus::Ready {
            LspStatus::Ready
        } else {
            LspStatus::Starting
        })),
        heard matches HeardView::Told { text, heard: true } ==> (state.served matches ServedView::Yes(
            document,
        ) ==> can_answer(hearing(state, heard, follows_the_caret, now).served, text) == (
        if document.ready {
            crate::document::CanAnswer::Yes
        } else {
            crate::document::CanAnswer::StillReadingTheProject
        })),
        heard matches HeardView::Triggers(characters) ==> hearing(
            state,
            heard,
            follows_the_caret,
            now,
        ) == (EditorStateView { triggers: characters, ..state }),
        heard is Completion ==> hearing(state, heard, follows_the_caret, now).served == state.served
            && hearing(state, heard, follows_the_caret, now).landed == state.landed
            && hearing(state, heard, follows_the_caret, now).triggers == state.triggers,
        heard is Definition ==> hearing(state, heard, follows_the_caret, now).served == state.served
            && hearing(state, heard, follows_the_caret, now).completing == state.completing,
        (heard is Status || heard is Told) ==> hearing(state, heard, follows_the_caret, now).completing
            == state.completing && hearing(state, heard, follows_the_caret, now).landed
            == state.landed,
{
}

} // verus!
