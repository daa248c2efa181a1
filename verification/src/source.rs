//! What a language server says, as plain values: where a file stands with its server, places
//! in a file, and the rows, signatures and locations that come back from questions.
//!
//! These are what the deciding in this crate reads. The process that actually carries the
//! questions to a server - and the blocking calls it makes - stands outside the library, and
//! turns its own answers into these.

use vstd::prelude::*;

verus! {

/// Whether a server is behind a file, and whether it has finished reading the project.
///
/// Three states rather than two, because a server that is still reading the project answers
/// every question with nothing, and nothing from it reads exactly like "there is nothing".
#[derive(Clone, Copy, PartialEq, Eq, Debug, Structural)]
pub enum LspStatus {
    /// Nothing serves the file: no server for its language, none installed, or one that
    /// could not be reached.
    Unavailable,
    /// A server serves the file and is still reading the project.
    Starting,
    /// A server serves the file and will answer.
    Ready,
}

/// A place in a file: the line counts from zero, and the column is bytes into that line.
#[derive(Clone, Copy, PartialEq, Eq, Debug, Structural)]
pub struct LspPosition {
    /// The line, counted from zero.
    pub line: usize,
    /// Bytes into the line.
    pub column: usize,
}

/// What sort of thing a completion row offers, as the protocol names them.
#[derive(Clone, Copy, PartialEq, Eq, Debug, Structural)]
pub enum LspCompletionKind {
    /// Plain text.
    Text,
    /// A method.
    Method,
    /// A free function.
    Function,
    /// A constructor.
    Constructor,
    /// A field.
    Field,
    /// A variable.
    Variable,
    /// A class.
    Class,
    /// An interface or trait.
    Interface,
    /// A module.
    Module,
    /// A property.
    Property,
    /// A unit.
    Unit,
    /// A value.
    Value,
    /// An enum.
    Enum,
    /// A keyword.
    Keyword,
    /// A snippet.
    Snippet,
    /// A colour.
    Color,
    /// A file.
    File,
    /// A reference.
    Reference,
    /// A folder.
    Folder,
    /// A member of an enum.
    EnumMember,
    /// A constant.
    Constant,
    /// A struct.
    Struct,
    /// An event.
    Event,
    /// An operator.
    Operator,
    /// A type parameter.
    TypeParameter,
}

/// One row of a server's answer to "what could be typed here".
#[derive(Clone, PartialEq, Eq, Debug)]
pub struct LspCompletion {
    /// What the row reads as.
    pub label: String,
    /// The server's note on it, such as a signature.
    pub detail: Option<String>,
    /// What taking the row puts into the text.
    pub insert: String,
    /// What sort of thing it is, where the server said.
    pub kind: Option<LspCompletionKind>,
}

/// The signature of the call around a place, as a server reports it.
#[derive(Clone, PartialEq, Eq, Debug)]
pub struct LspSignature {
    /// The whole signature.
    pub label: String,
    /// Where in `label` the parameter the caret is at stands, as a byte range.
    pub active_parameter: Option<std::ops::Range<usize>>,
    /// What the server says about it, as markdown.
    pub documentation: Option<String>,
}

/// A place a name is defined.
#[derive(Clone, PartialEq, Eq, Debug)]
pub struct LspLocation {
    /// The file, relative to the repo for one inside it and absolute for one outside.
    pub file_path: String,
    /// The line, counted from zero.
    pub line_number: usize,
}

/// The characters of a row as a value: what it reads as, its note, what it puts in, and its
/// kind.
pub struct LspCompletionView {
    pub label: Seq<char>,
    pub detail: Option<Seq<char>>,
    pub insert: Seq<char>,
    pub kind: Option<LspCompletionKind>,
}

/// An optional piece of text, as its characters.
pub open spec fn text_of(text: Option<String>) -> Option<Seq<char>> {
    match text {
        Some(text) => Some(text@),
        None => None,
    }
}

impl View for LspCompletion {
    type V = LspCompletionView;

    open spec fn view(&self) -> LspCompletionView {
        LspCompletionView {
            label: self.label@,
            detail: text_of(self.detail),
            insert: self.insert@,
            kind: self.kind,
        }
    }
}

} // verus!
