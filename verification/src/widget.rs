//! What the editor widget reports and takes, as plain values: places in its buffer, the word
//! under the caret or the pointer, and the rows of a completion list.
//!
//! The widget itself owns the buffer and draws it; it stands outside the library, and its
//! reports are turned into these each frame.

use vstd::prelude::*;

use crate::source::text_of;

verus! {

/// A place in the buffer: its byte offset, and the line and the column in bytes it comes to.
#[derive(Clone, Copy, PartialEq, Eq, Debug, Structural)]
pub struct TextPoint {
    /// Bytes into the whole text.
    pub offset: usize,
    /// The line, counted from zero.
    pub line: usize,
    /// Bytes into the line.
    pub column: usize,
}

/// A word in the buffer, and where it starts.
#[derive(Clone, PartialEq, Eq, Debug)]
pub struct Word {
    /// The word.
    pub text: String,
    /// Where it starts.
    pub at: TextPoint,
}

/// A [`Word`] as values.
pub struct WordView {
    pub text: Seq<char>,
    pub at: TextPoint,
}

impl View for Word {
    type V = WordView;

    open spec fn view(&self) -> WordView {
        WordView { text: self.text@, at: self.at }
    }
}

impl Word {
    /// Whether this is the same word at the same place as `other`.
    pub fn same_as(&self, other: &Word) -> (same: bool)
        ensures
            same == (self@ == other@),
    {
        self.text == other.text && self.at == other.at
    }

    /// Another copy of this word.
    pub fn copied(&self) -> (word: Word)
        ensures
            word@ == self@,
    {
        Word { text: self.text.clone(), at: self.at }
    }
}

/// One row of a completion list as the widget takes it.
#[derive(Clone, PartialEq, Eq, Debug)]
pub struct Completion {
    /// What the row reads as.
    pub label: String,
    /// A note beside it.
    pub detail: Option<String>,
    /// What taking the row puts into the text.
    pub insert: String,
    /// How many bytes back from the end of `insert` the caret is left, once it is in.
    pub caret_back: usize,
}

/// A [`Completion`] as values.
pub struct CompletionView {
    pub label: Seq<char>,
    pub detail: Option<Seq<char>>,
    pub insert: Seq<char>,
    pub caret_back: usize,
}

impl View for Completion {
    type V = CompletionView;

    open spec fn view(&self) -> CompletionView {
        CompletionView {
            label: self.label@,
            detail: text_of(self.detail),
            insert: self.insert@,
            caret_back: self.caret_back,
        }
    }
}

/// What the widget reported on the frame it has just drawn, as far as finishing a word goes.
pub struct EditorReport {
    /// The word the caret is at the end of while it is being typed.
    pub word_being_typed: Option<Word>,
    /// Where the caret is, if the widget has one.
    pub caret: Option<TextPoint>,
    /// Whether a row of the completion list was taken this frame.
    pub completion_taken: bool,
    /// Whether the completion list was put away with Escape this frame.
    pub completion_dismissed: bool,
    /// Whether the widget has the keyboard.
    pub focused: bool,
}

} // verus!
