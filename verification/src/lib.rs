//! Deciding what a code editor owes its language server, and when.
//!
//! A code editor that keeps a language server told about its buffer, offers what that server
//! would finish a word with, and answers a modifier-click with where the name is defined has
//! most of its work between the widget and the server: when to tell a server the text has
//! changed and when not to, when a half-typed word is worth asking about and when the answer
//! that comes back is for text that no longer exists, and telling "the server is still
//! indexing" apart from "there is no definition", which look identical on the wire.
//!
//! That deciding is what this library is. Nothing in it calls a server, blocks, or reads a
//! clock: every state machine takes the moment as an argument and says what it owes, and the
//! caller does the asking however it does such things.
//!
//! - [`document`]: what a server is owed about an open file, and the pause the typing waits.
//! - [`completing`]: when a half-typed word is worth a question, and which rows are offered.
//! - [`calling`]: why taking a function from the list writes the parentheses of a call.
//! - [`definition`]: what a click can expect of a server that is still reading the project.
//! - [`signing`] and [`hovering`]: when a signature or a hover is worth asking for.
//! - [`asking`]: the questions waiting to go to the worker, and the order they go in.
//! - [`editor`]: all of it wired together, as what one editor does each frame.

pub mod asking;
pub mod calling;
pub mod clock;
pub mod completing;
pub mod definition;
pub mod document;
pub mod editor;
pub mod hovering;
pub mod signing;
pub mod source;
pub mod text;
pub mod widget;

pub use asking::{Ask, Heard, Kind, StatusAbout, Waiting, Worker, WorkerNext, IN_ORDER};
pub use calling::{follows_the_caret, row_for, takes_parentheses};
pub use completing::{
    asked_at, rows_for, starts_the_same, Asked, AtTheCaret, Completing, CompletingNext, Next,
    MOST_ROWS,
};
pub use definition::{asks_about, still_starting, AsksAbout};
pub use document::{
    CanAnswer, Document, DocumentAsk, DocumentOwed, Owed, Served, STARTING_IS_ASKED_ABOUT_EVERY,
    TELLING_AGAIN_IN, TYPING_SETTLES_IN,
};
pub use editor::{Definition, EditorState, LookUp, LookingUp, Owing};
pub use hovering::{Hovering, HoveringNext, POINTER_SETTLES_IN};
pub use signing::{inside_a_call, SignedAt, Signing, SigningNext, LOOKS_BACK, SIGNATURE_SETTLES_IN};
pub use source::{
    LspCompletion, LspCompletionKind, LspLocation, LspPosition, LspSignature, LspStatus,
};
pub use widget::{Completion, EditorReport, TextPoint, Word};
