//! What resting the pointer on a name asks a server, and when.
//!
//! A hover is asked about once the pointer has rested on one word for [`POINTER_SETTLES_IN`]:
//! a pointer crossing a page passes over dozens of names, and a question for each would be a
//! queue of answers about words nobody is looking at any more. Only text the server has heard
//! is asked about, and each word is asked about once: an answer, even one with nothing in it,
//! stands until the pointer rests on another word.
//!
//! Nothing here calls anything or reads a clock; the caller passes the time in.

use vstd::prelude::*;

use crate::clock::{elapsed, elapsed_since};
use crate::document::CanAnswer;
use crate::source::text_of;
use crate::widget::{Word, WordView};

verus! {

/// How long the pointer has to rest on a word before it is asked about, in nanoseconds. Long
/// enough that a pointer on its way somewhere else asks nothing, short enough that one that
/// stopped to read is answered before the reader wonders.
pub const POINTER_SETTLES_IN: u64 = 350_000_000;

/// Where the pointer has rested, what was asked about it, and what came back.
pub struct Hovering {
    /// The word the pointer is on, and since when.
    pub resting: Option<(Word, u64)>,
    /// The word a question is out about.
    pub asked: Option<Word>,
    /// The last answer, and the word it is about. `None` inside is a server with nothing to
    /// say about that word, which is kept so it is not asked again.
    pub answer: Option<(Word, Option<String>)>,
}

/// A [`Hovering`] as values.
pub struct HoveringView {
    pub resting: Option<(WordView, u64)>,
    pub asked: Option<WordView>,
    pub answer: Option<(WordView, Option<Seq<char>>)>,
}

/// An optional word as values.
pub open spec fn word_of(word: Option<Word>) -> Option<WordView> {
    match word {
        Some(word) => Some(word@),
        None => None,
    }
}

impl View for Hovering {
    type V = HoveringView;

    open spec fn view(&self) -> HoveringView {
        HoveringView {
            resting: match self.resting {
                Some((word, since)) => Some((word@, since)),
                None => None,
            },
            asked: word_of(self.asked),
            answer: match self.answer {
                Some((word, markdown)) => Some((word@, text_of(markdown))),
                None => None,
            },
        }
    }
}

impl Default for Hovering {
    /// Nothing rested on, asked or answered.
    fn default() -> (hovering: Self)
        ensures
            hovering@ == (HoveringView { resting: None, asked: None, answer: None }),
    {
        Hovering { resting: None, asked: None, answer: None }
    }
}

/// What to do about the pointer this frame.
#[derive(Debug, PartialEq, Eq)]
pub enum HoveringNext {
    /// Nothing: no word under the pointer, a word already asked about, or text the server
    /// cannot answer about yet.
    Nothing,
    /// The pointer is resting and has not rested long enough: draw again this many nanoseconds
    /// from now.
    Wait(u64),
    /// Ask about this word, and hand the answer back with [`Hovering::answered`].
    Ask(Word),
}

/// A [`HoveringNext`] as values.
pub enum HoveringNextView {
    Nothing,
    Wait(u64),
    Ask(WordView),
}

impl View for HoveringNext {
    type V = HoveringNextView;

    open spec fn view(&self) -> HoveringNextView {
        match self {
            HoveringNext::Nothing => HoveringNextView::Nothing,
            HoveringNext::Wait(left) => HoveringNextView::Wait(*left),
            HoveringNext::Ask(word) => HoveringNextView::Ask(word@),
        }
    }
}

/// A frame of following the pointer onto `pointed`.
///
/// Off every word, nothing is resting. On one, the rest is measured from when the pointer came
/// onto it; a word already asked about or answered, or text the server cannot answer about, is
/// not asked about; otherwise the word is asked about once the pointer has rested
/// [`POINTER_SETTLES_IN`], and before then the caller is told how long is left.
pub open spec fn hovering_frame(
    hovering: HoveringView,
    pointed: Option<WordView>,
    can_answer: CanAnswer,
    now: u64,
) -> (HoveringView, HoveringNextView) {
    match pointed {
        None => (HoveringView { resting: None, ..hovering }, HoveringNextView::Nothing),
        Some(word) => {
            let since = match hovering.resting {
                Some((resting, since)) => if resting == word {
                    since
                } else {
                    now
                },
                None => now,
            };
            let rested = HoveringView { resting: Some((word, since)), ..hovering };
            let already = hovering.asked == Some(word) || (hovering.answer matches Some(
                (answered, _),
            ) && answered == word);
            if already || can_answer != CanAnswer::Yes {
                (rested, HoveringNextView::Nothing)
            } else if elapsed(now, since) < POINTER_SETTLES_IN {
                (rested, HoveringNextView::Wait((POINTER_SETTLES_IN - elapsed(now, since)) as u64))
            } else {
                (HoveringView { asked: Some(word), ..rested }, HoveringNextView::Ask(word))
            }
        },
    }
}

/// An optional borrowed word as values.
pub open spec fn pointed_at(pointed: Option<&Word>) -> Option<WordView> {
    match pointed {
        Some(word) => Some(word@),
        None => None,
    }
}

/// What to show about the word under the pointer: the answer, only while the pointer is on the
/// word it is about.
pub open spec fn shown_over(hovering: HoveringView, pointed: Option<WordView>) -> Option<Seq<char>> {
    match hovering.answer {
        Some((answered, markdown)) => if pointed == Some(answered) {
            markdown
        } else {
            None
        },
        None => None,
    }
}

/// What the server's answer about `word` makes of the state: kept as the answer about that
/// word, if it is the word a question is out about; otherwise nothing at all.
pub open spec fn hovering_answered(
    hovering: HoveringView,
    word: WordView,
    markdown: Option<Seq<char>>,
) -> HoveringView {
    if hovering.asked == Some(word) {
        HoveringView { asked: None, answer: Some((word, markdown)), ..hovering }
    } else {
        hovering
    }
}

impl Hovering {
    /// Follow the pointer: `pointed` is the word under it this frame, and `can_answer` whether
    /// the server has heard the text it is in.
    pub fn follow(&mut self, pointed: Option<&Word>, can_answer: CanAnswer, now: u64) -> (next:
        HoveringNext)
        ensures
            (final(self)@, next@) == hovering_frame(old(self)@, pointed_at(pointed), can_answer, now),
    {
        let word = match pointed {
            Some(word) => word,
            None => {
                self.resting = None;
                return HoveringNext::Nothing;
            },
        };
        let since = match &self.resting {
            Some((resting, since)) => if resting.same_as(word) {
                *since
            } else {
                now
            },
            None => now,
        };
        self.resting = Some((word.copied(), since));
        let asked_already = match &self.asked {
            Some(asked) => asked.same_as(word),
            None => false,
        };
        let answered_already = match &self.answer {
            Some((answered, _)) => answered.same_as(word),
            None => false,
        };
        if asked_already || answered_already || can_answer != CanAnswer::Yes {
            return HoveringNext::Nothing;
        }
        let rested = elapsed_since(now, since);
        if rested < POINTER_SETTLES_IN {
            return HoveringNext::Wait(POINTER_SETTLES_IN - rested);
        }
        self.asked = Some(word.copied());
        HoveringNext::Ask(word.copied())
    }

    /// What the server said about a word. An answer about a word that is no longer the one
    /// asked about is dropped. A question that could not be answered is handed back as `None`,
    /// the same as nothing to say: either way the word is not asked about again while the
    /// pointer stays on it.
    pub fn answered(&mut self, word: &Word, markdown: Option<String>)
        ensures
            final(self)@ == hovering_answered(old(self)@, word@, text_of(markdown)),
    {
        let asked = match &self.asked {
            Some(asked) => asked.same_as(word),
            None => false,
        };
        if !asked {
            return;
        }
        self.asked = None;
        self.answer = Some((word.copied(), markdown));
    }

    /// What to show about the word under the pointer, if the server said anything about it.
    pub fn showing(&self, pointed: Option<&Word>) -> (shown: Option<&str>)
        ensures
            match shown {
                Some(markdown) => shown_over(self@, pointed_at(pointed)) == Some(markdown@),
                None => shown_over(self@, pointed_at(pointed)) is None,
            },
    {
        let (answered, markdown) = match &self.answer {
            Some((answered, markdown)) => (answered, markdown),
            None => {
                return None;
            },
        };
        let over = match pointed {
            Some(word) => word.same_as(answered),
            None => false,
        };
        if !over {
            return None;
        }
        match markdown {
            Some(markdown) => Some(markdown.as_str()),
            None => None,
        }
    }
}

/// Each word is asked about once while the pointer stays on it: a frame asks only about a word
/// not already asked or answered about, and only of a server that can answer about the text,
/// once the pointer has rested [`POINTER_SETTLES_IN`]; the frame after it asks nothing about
/// that word, and neither does any frame after its answer - even an answer with nothing in it.
pub proof fn each_word_is_asked_about_once(
    hovering: HoveringView,
    word: WordView,
    can_answer: CanAnswer,
    now: u64,
    markdown: Option<Seq<char>>,
    then_can_answer: CanAnswer,
    then: u64,
)
    requires
        hovering_frame(hovering, Some(word), can_answer, now).1 == HoveringNextView::Ask(word),
    ensures
        hovering.asked != Some(word),
        can_answer == CanAnswer::Yes,
        hovering_frame(hovering, Some(word), can_answer, now).0.resting matches Some((_, since))
            && elapsed(now, since) >= POINTER_SETTLES_IN,
        hovering_frame(hovering_frame(hovering, Some(word), can_answer, now).0, Some(word), then_can_answer, then).1
            == HoveringNextView::Nothing,
        hovering_frame(
            hovering_answered(hovering_frame(hovering, Some(word), can_answer, now).0, word, markdown),
            Some(word),
            then_can_answer,
            then,
        ).1 == HoveringNextView::Nothing,
{
}

/// An answer is shown only over its own word, and an answer about a word that is no longer the
/// one asked about changes nothing.
pub proof fn an_answer_is_shown_only_over_its_own_word(
    hovering: HoveringView,
    word: WordView,
    markdown: Option<Seq<char>>,
    pointed: Option<WordView>,
)
    ensures
        hovering.asked != Some(word) ==> hovering_answered(hovering, word, markdown) == hovering,
        hovering.asked == Some(word) ==> shown_over(hovering_answered(hovering, word, markdown), Some(word)) == markdown,
        pointed != Some(word) && hovering.asked == Some(word) ==> shown_over(hovering_answered(hovering, word, markdown), pointed) is None,
{
}

/// A word is never asked about on the frame the pointer first comes onto it: a pointer passing
/// over words on its way somewhere else asks about none of them.
pub proof fn a_pointer_passing_over_a_word_asks_nothing(
    hovering: HoveringView,
    word: WordView,
    can_answer: CanAnswer,
    now: u64,
)
    requires
        !(hovering.resting matches Some((resting, _)) && resting == word),
    ensures
        !(hovering_frame(hovering, Some(word), can_answer, now).1 is Ask),
{
}

} // verus!
