//! Finishing what is being typed, out of what the language server behind the file knows.
//!
//! The editor draws the list and puts the chosen row into the text. What is here is the other
//! half: deciding when the question is worth asking, and checking that the answer is still an
//! answer when it lands. Nothing here ever touches the text.
//!
//! Two things are worth asking about. A half-typed name is the obvious one. The other is a
//! caret sitting behind a character the server itself said opens a list - the `.` of
//! `thing.` - where there is no word at all and the point is to be shown what could go there.
//! Which characters those are is never guessed at here: the server declares them and they are
//! carried in.
//!
//! Three things make that a decision rather than a call. A file no server serves asks nothing.
//! A question is only worth asking once the typing has stopped. And a question is only
//! answerable about text the server has already heard, by a server that has finished reading
//! the project - both of which are waited out rather than answered, so the word half typed
//! while a server was starting is asked about the moment it is ready.
//!
//! Typing does not stop while a request is out, so every request remembers what it was about
//! and every answer is checked against what is being typed when it lands.

use vstd::prelude::*;

use crate::calling::{row_for, row_of};
use crate::clock::{elapsed, elapsed_since};
use crate::document::{CanAnswer, TYPING_SETTLES_IN};
use crate::source::{LspCompletion, LspCompletionView, LspPosition, text_of};
use crate::text::chars_of;
use crate::widget::{Completion, CompletionView, EditorReport, TextPoint};

verus! {

/// The most rows offered at once, however many the server named.
pub const MOST_ROWS: usize = 50;

/// A question about one place: what has been typed towards a name there, if anything, and
/// where the caret is.
///
/// Handed out by [`Completing::follow`] and handed back to [`Completing::answered`].
#[derive(PartialEq, Eq, Debug)]
pub struct Asked {
    /// What has been typed of the name so far, which the answer is filtered against - and
    /// `None` for a question asked where nothing has been typed towards anything, which is
    /// what a trigger character asks. Two questions that read the same in two places are
    /// still two questions.
    pub prefix: Option<String>,
    /// Where the caret sits: the line, counted from zero, and the column in bytes.
    pub line: usize,
    pub column: usize,
}

/// An [`Asked`] as values.
pub struct AskedView {
    pub prefix: Option<Seq<char>>,
    pub line: usize,
    pub column: usize,
}

impl View for Asked {
    type V = AskedView;

    open spec fn view(&self) -> AskedView {
        AskedView { prefix: text_of(self.prefix), line: self.line, column: self.column }
    }
}

/// An optional question as values.
pub open spec fn asked_view(asked: Option<Asked>) -> Option<AskedView> {
    match asked {
        Some(asked) => Some(asked@),
        None => None,
    }
}

impl Clone for Asked {
    /// The same question.
    fn clone(&self) -> (asked: Self)
        ensures
            asked@ == self@,
    {
        let prefix = match &self.prefix {
            Some(prefix) => Some(prefix.clone()),
            None => None,
        };
        Asked { prefix, line: self.line, column: self.column }
    }
}

impl Asked {
    /// Where to ask.
    pub fn at(&self) -> (at: LspPosition)
        ensures
            at == (LspPosition { line: self.line, column: self.column }),
    {
        LspPosition { line: self.line, column: self.column }
    }

    /// What has been typed of the name so far, for a caller that wants to say what it is
    /// asking about. `None` where the question is what could go here at all.
    pub fn prefix(&self) -> (prefix: Option<&str>)
        ensures
            match prefix {
                Some(typed) => self.prefix matches Some(own) && typed@ == own@,
                None => self.prefix is None,
            },
    {
        match &self.prefix {
            Some(prefix) => Some(prefix.as_str()),
            None => None,
        }
    }

    /// A question about the half-typed `word`, with the caret at `line` and `column`.
    pub fn about(word: &str, line: usize, column: usize) -> (asked: Self)
        ensures
            asked@ == (AskedView { prefix: Some(word@), line, column }),
    {
        Asked { prefix: Some(word.to_owned()), line, column }
    }

    /// Whether this is the same question as `other`: the same words typed, at the same place.
    pub fn same_as(&self, other: &Asked) -> (same: bool)
        ensures
            same == (self@ == other@),
    {
        let same_prefix = match (&self.prefix, &other.prefix) {
            (Some(mine), Some(theirs)) => *mine == *theirs,
            (None, None) => true,
            _ => false,
        };
        same_prefix && self.line == other.line && self.column == other.column
    }
}

/// Whether an optional question is `asked`.
fn is_the_question(question: &Option<Asked>, asked: &Asked) -> (is: bool)
    ensures
        is == (asked_view(*question) == Some(asked@)),
{
    match question {
        Some(question) => question.same_as(asked),
        None => false,
    }
}

/// Whether two optional questions are the same, including both being none.
fn same_question(a: Option<&Asked>, b: Option<&Asked>) -> (same: bool)
    ensures
        same == (match (a, b) {
            (Some(a), Some(b)) => a@ == b@,
            (None, None) => true,
            _ => false,
        }),
{
    match (a, b) {
        (Some(a), Some(b)) => a.same_as(b),
        (None, None) => true,
        _ => false,
    }
}

/// An optional question as values, from a borrowed one.
pub open spec fn borrowed_view(asked: Option<&Asked>) -> Option<AskedView> {
    match asked {
        Some(asked) => Some(asked@),
        None => None,
    }
}

/// A copy of an optional borrowed question.
fn copied(asked: Option<&Asked>) -> (copy: Option<Asked>)
    ensures
        asked_view(copy) == borrowed_view(asked),
{
    match asked {
        Some(asked) => Some(asked.clone()),
        None => None,
    }
}

/// What the caret is sitting behind this frame, and what the server behind this file said
/// opens a list on its own.
///
/// A caret behind nothing with no server to have said anything asks about words and nothing
/// else.
#[derive(Clone, Copy)]
pub struct AtTheCaret<'a> {
    /// The character the caret sits behind. `None` at the start of a line.
    pub typed: Option<char>,
    /// What the server said opens a list on its own. Empty for a server that named none, and
    /// for one that has not started yet.
    pub triggers: &'a [char],
}

impl<'a> AtTheCaret<'a> {
    /// Whether what the caret sits behind is one of the server's own triggers, which is the
    /// whole of "should a list open here with nothing typed towards it".
    pub fn opens_a_list(&self) -> (opens: bool)
        ensures
            opens == (self.typed matches Some(typed) && self.triggers@.contains(typed)),
    {
        let typed = match self.typed {
            Some(typed) => typed,
            None => {
                return false;
            },
        };
        let mut i: usize = 0;
        while i < self.triggers.len()
            invariant
                i <= self.triggers@.len(),
                self.typed == Some(typed),
                forall|j: int| 0 <= j < i ==> self.triggers@[j] != typed,
            decreases self.triggers@.len() - i,
        {
            if self.triggers[i] == typed {
                return true;
            }
            i = i + 1;
        }
        false
    }
}

/// What is on offer under the caret, and the question it answers.
pub struct Offering {
    pub answers: Asked,
    pub rows: Vec<Completion>,
}

/// An [`Offering`] as values.
pub struct OfferingView {
    pub answers: AskedView,
    pub rows: Seq<CompletionView>,
}

impl View for Offering {
    type V = OfferingView;

    open spec fn view(&self) -> OfferingView {
        OfferingView { answers: self.answers@, rows: self.rows@.map_values(|row: Completion| row@) }
    }
}

/// What one view is doing about finishing what is being typed in it.
pub struct Completing {
    /// The question the caret is on, and the moment it became that question: together they
    /// are how long the typing has been stopped for. A trigger waits out the same pause as a
    /// word, because the answer would otherwise be about text the server has not been sent.
    pub typing: Option<Asked>,
    pub typing_since: Option<u64>,
    /// The question that is out, if there is one. One at a time, so what comes back is always
    /// the answer to this.
    pub asked: Option<Asked>,
    /// What the editor is being offered.
    pub offering: Option<Offering>,
    /// The question there is nothing more to offer for: Escape was pressed on it, a row was
    /// taken on it, or it was answered with nothing. It is never asked again while it is the
    /// question - and another letter, another caret, or the same `.` elsewhere is a different
    /// question and a fair one.
    pub nothing_more_for: Option<Asked>,
}

/// A [`Completing`] as values.
pub struct CompletingView {
    pub typing: Option<AskedView>,
    pub typing_since: Option<u64>,
    pub asked: Option<AskedView>,
    pub offering: Option<OfferingView>,
    pub nothing_more_for: Option<AskedView>,
}

impl View for Completing {
    type V = CompletingView;

    open spec fn view(&self) -> CompletingView {
        CompletingView {
            typing: asked_view(self.typing),
            typing_since: self.typing_since,
            asked: asked_view(self.asked),
            offering: match self.offering {
                Some(offering) => Some(offering@),
                None => None,
            },
            nothing_more_for: asked_view(self.nothing_more_for),
        }
    }
}

impl Default for Completing {
    /// Nothing typed, asked or offered.
    fn default() -> (completing: Self)
        ensures
            completing@ == idle(),
    {
        Completing {
            typing: None,
            typing_since: None,
            asked: None,
            offering: None,
            nothing_more_for: None,
        }
    }
}

/// Nothing typed, asked or offered.
pub open spec fn idle() -> CompletingView {
    CompletingView {
        typing: None,
        typing_since: None,
        asked: None,
        offering: None,
        nothing_more_for: None,
    }
}

/// What the view does about asking, on the frame it has just drawn.
#[derive(PartialEq, Eq, Debug)]
pub enum CompletingNext {
    /// Nothing to ask about under the caret, the answer already in hand, a question already
    /// out, or one already put away.
    Nothing,
    /// Something worth asking about, but not yet: the typing has not stopped for long enough,
    /// or the server cannot answer about this text yet. The caller asks for the frame it
    /// becomes worth asking on. Nothing is asked, so nothing comes back empty and writes the
    /// word off.
    Wait,
    /// Ask what could be typed at this place, and give the answer back to
    /// [`Completing::answered`] along with this.
    Ask(Asked),
}

/// The same three answers as [`CompletingNext`], before the question is taken out of the
/// state.
#[derive(Clone, Copy, PartialEq, Eq, Debug, Structural)]
pub enum Next {
    /// Nothing to ask.
    Nothing,
    /// Not yet.
    Wait,
    /// Ask.
    Ask,
}

/// Whether `typed` would read as the start of `label`, ignoring case the way a list of names
/// should: ASCII letters are the same letter in either case, and nothing else is.
pub open spec fn lowered(c: char) -> u32 {
    if 65 <= (c as u32) <= 90 {
        (c as u32 + 32) as u32
    } else {
        c as u32
    }
}

/// Whether a row reads as a way of finishing the word: every character typed is the row's
/// character at the same place, ignoring ASCII case.
pub open spec fn finishes(label: Seq<char>, word: Seq<char>) -> bool {
    &&& word.len() <= label.len()
    &&& forall|i: int| 0 <= i < word.len() ==> lowered(#[trigger] label[i]) == lowered(word[i])
}

/// A character's code, with an ASCII capital read as its small letter.
fn lower(c: char) -> (code: u32)
    ensures
        code == lowered(c),
{
    let code = c as u32;
    if 65 <= code && code <= 90 {
        code + 32
    } else {
        code
    }
}

/// Whether a row reads as a way of finishing the word, ignoring case the way a list of names
/// should - someone typing `str` means `String` too.
pub fn starts_the_same(label: &str, word: &str) -> (same: bool)
    ensures
        same == finishes(label@, word@),
{
    let label_chars = chars_of(label);
    let word_chars = chars_of(word);
    if word_chars.len() > label_chars.len() {
        return false;
    }
    let mut i: usize = 0;
    while i < word_chars.len()
        invariant
            label_chars@ == label@,
            word_chars@ == word@,
            word@.len() <= label@.len(),
            i <= word@.len(),
            forall|j: int| 0 <= j < i ==> lowered(#[trigger] label@[j]) == lowered(word@[j]),
        decreases word@.len() - i,
    {
        if lower(label_chars[i]) != lower(word_chars[i]) {
            assert(lowered(label@[i as int]) != lowered(word@[i as int]));
            return false;
        }
        i = i + 1;
    }
    true
}

/// Whether a row is kept for the word typed so far: every row where nothing was typed, and
/// the rows that finish the word where something was.
pub open spec fn keeps(prefix: Option<Seq<char>>, row: LspCompletionView) -> bool {
    match prefix {
        Some(prefix) => finishes(row.label, prefix),
        None => true,
    }
}

/// The rows of an answer that are kept, in the order the server sent them.
pub open spec fn kept(prefix: Option<Seq<char>>, answered: Seq<LspCompletionView>) -> Seq<
    LspCompletionView,
>
    decreases answered.len(),
{
    if answered.len() == 0 {
        Seq::empty()
    } else {
        let before = kept(prefix, answered.drop_last());
        if keeps(prefix, answered.last()) {
            before.push(answered.last())
        } else {
            before
        }
    }
}

/// At most [`MOST_ROWS`] of them, from the front.
pub open spec fn capped<T>(rows: Seq<T>) -> Seq<T> {
    if rows.len() <= MOST_ROWS {
        rows
    } else {
        rows.take(MOST_ROWS as int)
    }
}

/// What an answer offers: the rows kept for the word typed, in the server's order, no more
/// than [`MOST_ROWS`] of them, each as the widget's row.
pub open spec fn offered(
    prefix: Option<Seq<char>>,
    answered: Seq<LspCompletionView>,
    follows_the_caret: Option<char>,
) -> Seq<CompletionView> {
    capped(kept(prefix, answered)).map_values(
        |row: LspCompletionView| row_of(row, follows_the_caret),
    )
}

/// The rows a server's answer comes to, as the editor takes them.
///
/// The protocol leaves the filtering to whoever asked, so only the rows that could finish what
/// has been typed survive; with nothing typed there is nothing to filter on, and the rows stand
/// in the order the server sent them - the server orders its own answer. Never more than
/// [`MOST_ROWS`]. And each row is what taking it puts in, which for a function is a call.
pub fn rows_for(
    prefix: Option<&str>,
    answered: Vec<LspCompletion>,
    follows_the_caret: Option<char>,
) -> (rows: Vec<Completion>)
    ensures
        rows@.map_values(|row: Completion| row@) == offered(
            match prefix {
                Some(prefix) => Some(prefix@),
                None => None,
            },
            answered@.map_values(|row: LspCompletion| row@),
            follows_the_caret,
        ),
{
    let ghost wanted = match prefix {
        Some(prefix) => Some(prefix@),
        None => None,
    };
    let ghost all = answered@.map_values(|row: LspCompletion| row@);
    let mut rows: Vec<Completion> = Vec::new();
    let ghost mut i: int = 0;
    proof {
        assert(all.take(0) =~= Seq::<LspCompletionView>::empty());
        assert(rows@.map_values(|row: Completion| row@) =~= offered(wanted, all.take(0), follows_the_caret));
    }
    for item in it: answered
        invariant
            it.seq() == answered@,
            all == answered@.map_values(|row: LspCompletion| row@),
            i == it.index(),
            0 <= i <= all.len(),
            wanted == match prefix {
                Some(prefix) => Some(prefix@),
                None => None,
            },
            rows@.map_values(|row: Completion| row@) == offered(wanted, all.take(i), follows_the_caret),
    {
        let ghost before = kept(wanted, all.take(i));
        let ghost item_view = item@;
        let ghost old_rows = rows@.map_values(|row: Completion| row@);
        proof {
            assert(i < all.len());
            assert(item_view == all[i]);
            assert(all.take(i + 1).drop_last() =~= all.take(i));
            assert(all.take(i + 1).last() == item_view);
            assert(old_rows.len() == capped(before).len());
        }
        let keep = match prefix {
            Some(prefix) => starts_the_same(item.label.as_str(), prefix),
            None => true,
        };
        proof {
            assert(keep == keeps(wanted, item_view));
        }
        if keep && rows.len() < MOST_ROWS {
            let row = row_for(item, follows_the_caret);
            let ghost row_view = row@;
            rows.push(row);
            proof {
                assert(rows@.map_values(|row: Completion| row@) =~= old_rows.push(row_view));
            }
        }
        proof {
            let after = kept(wanted, all.take(i + 1));
            let f = |row: LspCompletionView| row_of(row, follows_the_caret);
            if keep {
                assert(after == before.push(item_view));
                if before.len() < MOST_ROWS {
                    assert(capped(after) =~= capped(before).push(item_view));
                    assert(capped(after).map_values(f) =~= capped(before).map_values(f).push(f(item_view)));
                } else {
                    assert(capped(after) =~= capped(before));
                }
            } else {
                assert(after == before);
            }
            i = i + 1;
        }
    }
    proof {
        assert(all.take(i) =~= all);
    }
    rows
}

/// The question the caret is on: the word being typed where there is one, asked with what has
/// been typed of it; otherwise a place behind a character the server said opens a list, asked
/// with nothing typed; otherwise none. There is no question without a caret.
pub open spec fn question_at(
    word_being_typed: Option<Seq<char>>,
    caret: Option<TextPoint>,
    opens_a_list: bool,
) -> Option<AskedView> {
    match caret {
        None => None,
        Some(caret) => match word_being_typed {
            Some(word) => Some(AskedView { prefix: Some(word), line: caret.line, column: caret.column }),
            None => if opens_a_list {
                Some(AskedView { prefix: None, line: caret.line, column: caret.column })
            } else {
                None
            },
        },
    }
}

/// The question the caret is on this frame, if it is on one.
///
/// A word being typed is asked about first, and what is asked is which names finish it. A
/// caret behind one of the server's own trigger characters is asked about with no prefix at
/// all: `thing.` has no word to finish, and filtering the answer would throw away the rows the
/// `.` was typed to see. Anywhere else there is nothing to ask.
pub fn asked_at(
    word_being_typed: Option<&str>,
    caret: Option<&TextPoint>,
    at_the_caret: AtTheCaret<'_>,
) -> (asked: Option<Asked>)
    ensures
        asked_view(asked) == question_at(
            match word_being_typed {
                Some(word) => Some(word@),
                None => None,
            },
            match caret {
                Some(caret) => Some(*caret),
                None => None,
            },
            at_the_caret.typed matches Some(typed) && at_the_caret.triggers@.contains(typed),
        ),
{
    let caret = match caret {
        Some(caret) => caret,
        None => {
            return None;
        },
    };
    match word_being_typed {
        Some(word) => Some(Asked { prefix: Some(word.to_owned()), line: caret.line, column: caret.column }),
        None => if at_the_caret.opens_a_list() {
            Some(Asked { prefix: None, line: caret.line, column: caret.column })
        } else {
            None
        },
    }
}

/// The list put away once it has stopped being an answer to what is being typed.
///
/// A row taken or Escape ends it, and the question under the caret now - after a taken row,
/// the word the take just put there - is the one nothing more is offered for. Otherwise the
/// list goes when the editor loses the keyboard or the caret leaves the question it answers,
/// and a question with nothing more to offer stops being one the moment the caret is on
/// another.
pub open spec fn putting_away(
    completing: CompletingView,
    ends_the_list: bool,
    asking: Option<AskedView>,
    focused: bool,
) -> CompletingView {
    if ends_the_list {
        CompletingView { nothing_more_for: asking, offering: None, ..completing }
    } else {
        let answers_something_else = completing.offering matches Some(offering) && asking != Some(
            offering.answers,
        );
        let kept = if !focused || answers_something_else {
            CompletingView { offering: None, ..completing }
        } else {
            completing
        };
        if kept.nothing_more_for != asking {
            CompletingView { nothing_more_for: None, ..kept }
        } else {
            kept
        }
    }
}

/// The question the caret is on taken note of at `now`: the pause is measured from the last
/// time the question changed.
pub open spec fn seeing_question(
    completing: CompletingView,
    asking: Option<AskedView>,
    now: u64,
) -> CompletingView {
    if completing.typing != asking {
        CompletingView { typing: asking, typing_since: Some(now), ..completing }
    } else {
        completing
    }
}

/// Whether to ask about the question the caret is on.
///
/// Not about no question, nor one there is nothing more to offer for, nor while another is
/// out, nor one whose answer is already on offer. Otherwise wait until the typing has stopped
/// for [`TYPING_SETTLES_IN`], and then ask only a server that can answer about this text:
/// text it has not heard and a project it is still reading are both waited out.
pub open spec fn next_for(completing: CompletingView, can_answer: CanAnswer, now: u64) -> Next {
    match (completing.typing, completing.typing_since) {
        (Some(typing), Some(since)) => if completing.nothing_more_for == Some(typing) {
            Next::Nothing
        } else if completing.asked is Some {
            Next::Nothing
        } else if completing.offering matches Some(offering) && offering.answers == typing {
            Next::Nothing
        } else if elapsed(now, since) < TYPING_SETTLES_IN {
            Next::Wait
        } else if can_answer == CanAnswer::Yes {
            Next::Ask
        } else {
            Next::Wait
        },
        _ => Next::Nothing,
    }
}

/// A [`CompletingNext`] as values.
pub enum CompletingNextView {
    Nothing,
    Wait,
    Ask(AskedView),
}

impl View for CompletingNext {
    type V = CompletingNextView;

    open spec fn view(&self) -> CompletingNextView {
        match self {
            CompletingNext::Nothing => CompletingNextView::Nothing,
            CompletingNext::Wait => CompletingNextView::Wait,
            CompletingNext::Ask(asked) => CompletingNextView::Ask(asked@),
        }
    }
}

/// A frame of following the caret: the list put away where it has stopped being an answer,
/// the question taken note of, and - where it is time - the question marked as out and
/// handed back to be asked.
pub open spec fn following(
    completing: CompletingView,
    ends_the_list: bool,
    asking: Option<AskedView>,
    focused: bool,
    can_answer: CanAnswer,
    now: u64,
) -> (CompletingView, CompletingNextView) {
    let seen = seeing_question(putting_away(completing, ends_the_list, asking, focused), asking, now);
    match next_for(seen, can_answer, now) {
        Next::Nothing => (seen, CompletingNextView::Nothing),
        Next::Wait => (seen, CompletingNextView::Wait),
        Next::Ask => (
            CompletingView { asked: seen.typing, ..seen },
            CompletingNextView::Ask(seen.typing->0),
        ),
    }
}

/// An answer come back for `asked`: no longer out, and offered only if it is still the
/// question being typed. An answer with nothing in it - or none at all - is the question there
/// is nothing more to offer for.
pub open spec fn answering(
    completing: CompletingView,
    asked: AskedView,
    answered: Option<Seq<LspCompletionView>>,
    follows_the_caret: Option<char>,
) -> CompletingView {
    let settled = if completing.asked == Some(asked) {
        CompletingView { asked: None, ..completing }
    } else {
        completing
    };
    if settled.typing != Some(asked) {
        settled
    } else {
        let rows = match answered {
            Some(answered) => offered(asked.prefix, answered, follows_the_caret),
            None => Seq::empty(),
        };
        if rows.len() == 0 {
            CompletingView { nothing_more_for: Some(asked), ..settled }
        } else {
            CompletingView { offering: Some(OfferingView { answers: asked, rows }), ..settled }
        }
    }
}

/// What the editor is offered, as values.
pub open spec fn on_offer_in(completing: CompletingView) -> Seq<CompletionView> {
    match completing.offering {
        Some(offering) => offering.rows,
        None => Seq::empty(),
    }
}

impl Completing {
    /// What the editor is offered this frame. Empty offers nothing, which is the usual state.
    pub fn on_offer(&self) -> (rows: &[Completion])
        ensures
            rows@.map_values(|row: Completion| row@) == on_offer_in(self@),
    {
        match &self.offering {
            Some(offering) => offering.rows.as_slice(),
            None => {
                let none: &[Completion] = &[];
                proof {
                    assert(none@.map_values(|row: Completion| row@) =~= Seq::<CompletionView>::empty());
                }
                none
            },
        }
    }

    /// Take in what the editor reported, put the list away if it has stopped being an answer,
    /// and say whether the place the caret is on is worth a question.
    ///
    /// `at_the_caret` is the one thing the widget cannot report on its own: what the caret
    /// sits behind, and what the server said about that character.
    pub fn follow(
        &mut self,
        output: &EditorReport,
        at_the_caret: AtTheCaret<'_>,
        can_answer: CanAnswer,
        now: u64,
    ) -> (next: CompletingNext)
        ensures
            (final(self)@, next@) == following(
                old(self)@,
                output.completion_taken || output.completion_dismissed,
                question_at(
                    match output.word_being_typed {
                        Some(word) => Some(word.text@),
                        None => None,
                    },
                    output.caret,
                    at_the_caret.typed matches Some(typed) && at_the_caret.triggers@.contains(typed),
                ),
                output.focused,
                can_answer,
                now,
            ),
    {
        let word = match &output.word_being_typed {
            Some(word) => Some(word.text.as_str()),
            None => None,
        };
        let caret = match &output.caret {
            Some(caret) => Some(caret),
            None => None,
        };
        let asking = asked_at(word, caret, at_the_caret);
        let asking_now = match &asking {
            Some(asking) => Some(asking),
            None => None,
        };
        self.put_away(output, asking_now, output.focused);
        self.saw(asking_now, now);
        match self.next(can_answer, now) {
            Next::Nothing => CompletingNext::Nothing,
            Next::Wait => CompletingNext::Wait,
            Next::Ask => {
                let asked = match &self.typing {
                    Some(typing) => typing.clone(),
                    None => {
                        return CompletingNext::Nothing;
                    },
                };
                self.asked = Some(asked.clone());
                CompletingNext::Ask(asked)
            },
        }
    }

    /// An answer has come back. It is only offered if it is still an answer to the question
    /// being typed: the caret has kept moving the whole time the question was out.
    ///
    /// `answered` is `None` for a server that could not answer, which offers nothing.
    /// `follows_the_caret` is the character the caret sits in front of - see
    /// [`follows_the_caret`](crate::calling::follows_the_caret) - which is what stops a call
    /// being completed over from being given a second pair of parentheses.
    pub fn answered(
        &mut self,
        asked: &Asked,
        answered: Option<Vec<LspCompletion>>,
        follows_the_caret: Option<char>,
    )
        ensures
            final(self)@ == answering(
                old(self)@,
                asked@,
                match answered {
                    Some(answered) => Some(answered@.map_values(|row: LspCompletion| row@)),
                    None => None,
                },
                follows_the_caret,
            ),
    {
        if is_the_question(&self.asked, asked) {
            self.asked = None;
        }
        if !is_the_question(&self.typing, asked) {
            return;
        }
        let rows = match answered {
            Some(answered) => rows_for(asked.prefix(), answered, follows_the_caret),
            None => Vec::new(),
        };
        if rows.len() == 0 {
            self.nothing_more_for = Some(asked.clone());
            return;
        }
        self.offering = Some(Offering { answers: asked.clone(), rows });
    }

    /// Take note of the question the caret is on, so the pause is measured from the last time
    /// it changed rather than from the first time it was worth asking about.
    pub fn saw(&mut self, asking: Option<&Asked>, now: u64)
        ensures
            final(self)@ == seeing_question(old(self)@, borrowed_view(asking), now),
    {
        if !same_question(self.typing_ref(), asking) {
            self.typing = copied(asking);
            self.typing_since = Some(now);
        }
    }

    /// The question the caret was on, borrowed.
    fn typing_ref(&self) -> (typing: Option<&Asked>)
        ensures
            borrowed_view(typing) == asked_view(self.typing),
    {
        match &self.typing {
            Some(typing) => Some(typing),
            None => None,
        }
    }

    /// Put the list away once it has stopped being an answer to what is being typed: a row
    /// taken, Escape, the caret leaving the question the list answers, or the editor losing
    /// the keyboard.
    pub fn put_away(&mut self, output: &EditorReport, asking: Option<&Asked>, focused: bool)
        ensures
            final(self)@ == putting_away(
                old(self)@,
                output.completion_taken || output.completion_dismissed,
                borrowed_view(asking),
                focused,
            ),
    {
        if output.completion_taken || output.completion_dismissed {
            self.nothing_more_for = copied(asking);
            self.offering = None;
            return;
        }
        let answers_something_else = match &self.offering {
            Some(offering) => !same_question(asking, Some(&offering.answers)),
            None => false,
        };
        if !focused || answers_something_else {
            self.offering = None;
        }
        let put_away = match &self.nothing_more_for {
            Some(nothing_more_for) => Some(nothing_more_for),
            None => None,
        };
        if !same_question(put_away, asking) {
            self.nothing_more_for = None;
        }
    }

    /// Whether to ask about the question the caret is on.
    pub fn next(&self, can_answer: CanAnswer, now: u64) -> (next: Next)
        ensures
            next == next_for(self@, can_answer, now),
    {
        let (typing, since) = match (&self.typing, self.typing_since) {
            (Some(typing), Some(since)) => (typing, since),
            _ => {
                return Next::Nothing;
            },
        };
        if is_the_question(&self.nothing_more_for, typing) {
            return Next::Nothing;
        }
        if self.asked.is_some() {
            return Next::Nothing;
        }
        let answered = match &self.offering {
            Some(offering) => offering.answers.same_as(typing),
            None => false,
        };
        if answered {
            return Next::Nothing;
        }
        if elapsed_since(now, since) < TYPING_SETTLES_IN {
            return Next::Wait;
        }
        match can_answer {
            CanAnswer::Yes => Next::Ask,
            CanAnswer::NotThisText | CanAnswer::StillReadingTheProject => Next::Wait,
        }
    }
}

/// Every row kept for a word finishes it, and with nothing typed every row is kept, in the
/// order the server sent them.
proof fn kept_rows_finish_the_word(prefix: Option<Seq<char>>, answered: Seq<LspCompletionView>)
    ensures
        kept(prefix, answered).len() <= answered.len(),
        forall|i: int|
            0 <= i < kept(prefix, answered).len() ==> keeps(prefix, #[trigger] kept(prefix, answered)[i]),
        prefix is None ==> kept(prefix, answered) == answered,
    decreases answered.len(),
{
    if answered.len() > 0 {
        kept_rows_finish_the_word(prefix, answered.drop_last());
        if prefix is None {
            assert(answered.drop_last().push(answered.last()) =~= answered);
        }
    }
}

/// What is offered for a word is only rows that finish it, each reading exactly as the server
/// sent it; never more than [`MOST_ROWS`]; and with nothing typed, the server's own rows in the
/// server's own order.
pub proof fn only_rows_that_finish_the_word_are_offered(
    prefix: Option<Seq<char>>,
    answered: Seq<LspCompletionView>,
    follows_the_caret: Option<char>,
)
    ensures
        offered(prefix, answered, follows_the_caret).len() <= MOST_ROWS,
        offered(prefix, answered, follows_the_caret).len() <= answered.len(),
        prefix matches Some(word) ==> forall|i: int|
            0 <= i < offered(prefix, answered, follows_the_caret).len() ==> finishes(
                #[trigger] offered(prefix, answered, follows_the_caret)[i].label,
                word,
            ),
        prefix is None ==> offered(prefix, answered, follows_the_caret) == capped(answered).map_values(
            |row: LspCompletionView| row_of(row, follows_the_caret),
        ),
{
    kept_rows_finish_the_word(prefix, answered);
    let rows = kept(prefix, answered);
    if let Some(word) = prefix {
        assert forall|i: int|
            0 <= i < offered(prefix, answered, follows_the_caret).len() implies finishes(
            #[trigger] offered(prefix, answered, follows_the_caret)[i].label,
            word,
        ) by {
            assert(capped(rows)[i] == rows[i]);
            assert(keeps(prefix, rows[i]));
        }
    }
}

/// An answer is offered only while it answers the question being typed: one that comes back
/// for a question the caret has since left changes nothing but that the question is no longer
/// out, and whatever is newly on offer answers the question the caret is on.
pub proof fn an_answer_is_offered_only_for_the_question_being_typed(
    completing: CompletingView,
    asked: AskedView,
    answered: Option<Seq<LspCompletionView>>,
    follows_the_caret: Option<char>,
)
    ensures
        completing.typing != Some(asked) ==> answering(
            completing,
            asked,
            answered,
            follows_the_caret,
        ) == (if completing.asked == Some(asked) {
            CompletingView { asked: None, ..completing }
        } else {
            completing
        }),
        answering(completing, asked, answered, follows_the_caret).offering != completing.offering
            ==> (answering(completing, asked, answered, follows_the_caret).offering matches Some(
            offering,
        ) && offering.answers == asked && completing.typing == Some(asked)),
        answering(completing, asked, answered, follows_the_caret).asked != Some(asked),
{
}

/// One question at a time: a frame asks only when no question is out, and marks the question
/// it asks as out - so the frame after it asks nothing, whatever it sees, until the answer has
/// come back.
pub proof fn one_question_is_out_at_a_time(
    completing: CompletingView,
    ends_the_list: bool,
    asking: Option<AskedView>,
    focused: bool,
    can_answer: CanAnswer,
    now: u64,
    then_ends: bool,
    then_asking: Option<AskedView>,
    then_focused: bool,
    then_can_answer: CanAnswer,
    then: u64,
)
    requires
        following(completing, ends_the_list, asking, focused, can_answer, now).1 is Ask,
    ensures
        completing.asked is None,
        asking is Some,
        following(completing, ends_the_list, asking, focused, can_answer, now).1
            == CompletingNextView::Ask(asking->0),
        following(completing, ends_the_list, asking, focused, can_answer, now).0.asked == asking,
        !(following(
            following(completing, ends_the_list, asking, focused, can_answer, now).0,
            then_ends,
            then_asking,
            then_focused,
            then_can_answer,
            then,
        ).1 is Ask),
{
}

/// A question is asked only of a server that can answer about the text on screen, and only
/// once the caret has stayed on it for [`TYPING_SETTLES_IN`].
pub proof fn asked_only_after_the_pause_and_only_when_answerable(
    completing: CompletingView,
    ends_the_list: bool,
    asking: Option<AskedView>,
    focused: bool,
    can_answer: CanAnswer,
    now: u64,
)
    requires
        following(completing, ends_the_list, asking, focused, can_answer, now).1 is Ask,
    ensures
        can_answer == CanAnswer::Yes,
        following(completing, ends_the_list, asking, focused, can_answer, now).0.typing_since matches Some(
            since,
        ) && elapsed(now, since) >= TYPING_SETTLES_IN,
{
}

/// A question there is nothing more to offer for - put away with Escape or a taken row, or
/// answered with nothing - is not asked again while it is the question the caret is on.
pub proof fn a_question_put_away_is_not_asked_again(
    completing: CompletingView,
    asking: Option<AskedView>,
    focused: bool,
    can_answer: CanAnswer,
    now: u64,
)
    requires
        asking is Some,
        completing.nothing_more_for == asking,
    ensures
        !(following(completing, false, asking, focused, can_answer, now).1 is Ask),
        following(completing, false, asking, focused, can_answer, now).0.nothing_more_for
            == asking,
{
}

/// Ending a list puts it away and writes off the question under the caret, whatever else is
/// going on.
pub proof fn a_list_ended_is_put_away_for_that_question(
    completing: CompletingView,
    asking: Option<AskedView>,
    focused: bool,
    can_answer: CanAnswer,
    now: u64,
)
    ensures
        following(completing, true, asking, focused, can_answer, now).0.offering is None,
        following(completing, true, asking, focused, can_answer, now).0.nothing_more_for
            == asking,
        asking is Some ==> !(following(completing, true, asking, focused, can_answer, now).1 is Ask),
{
}

/// Waiting is not answering: a question waited out because the server could not yet answer
/// about the text is asked, with nothing more typed, the moment the server can.
pub proof fn a_question_waited_out_is_asked_once_the_server_can_answer(
    completing: CompletingView,
    can_answer: CanAnswer,
    now: u64,
)
    requires
        can_answer != CanAnswer::Yes,
        next_for(completing, can_answer, now) == Next::Wait,
        completing.typing_since matches Some(since) && elapsed(now, since) >= TYPING_SETTLES_IN,
    ensures
        next_for(completing, CanAnswer::Yes, now) == Next::Ask,
{
}

/// A question is never asked on the frame the caret first comes to it: the pause starts over
/// whenever the question under the caret changes, so a burst of typing asks nothing until it
/// stops.
pub proof fn a_new_question_waits_out_the_pause(
    completing: CompletingView,
    ends_the_list: bool,
    asking: Option<AskedView>,
    focused: bool,
    can_answer: CanAnswer,
    now: u64,
)
    requires
        asking != completing.typing,
    ensures
        !(following(completing, ends_the_list, asking, focused, can_answer, now).1 is Ask),
        following(completing, ends_the_list, asking, focused, can_answer, now).0.typing_since
            == Some(now),
{
}

/// A question answered with nothing - or not answered at all - while it is the question being
/// typed is not asked again while it stays the question: nothing is gained by asking it every
/// time the typing stops.
pub proof fn a_question_answered_with_nothing_is_not_asked_again(
    completing: CompletingView,
    asked: AskedView,
    answered: Option<Seq<LspCompletionView>>,
    follows_the_caret: Option<char>,
    can_answer: CanAnswer,
    now: u64,
)
    requires
        completing.typing == Some(asked),
        answered matches Some(rows) ==> offered(asked.prefix, rows, follows_the_caret).len() == 0,
    ensures
        answering(completing, asked, answered, follows_the_caret).nothing_more_for == Some(asked),
        next_for(answering(completing, asked, answered, follows_the_caret), can_answer, now)
            == Next::Nothing,
{
}

/// The rows of an answer kept for a word are exactly the rows whose label finishes it, in the
/// server's order.
proof fn kept_is_the_rows_that_finish_the_word(word: Seq<char>, answered: Seq<LspCompletionView>)
    ensures
        kept(Some(word), answered) == answered.filter(
            |row: LspCompletionView| finishes(row.label, word),
        ),
    decreases answered.len(),
{
    reveal(Seq::filter);
    if answered.len() > 0 {
        kept_is_the_rows_that_finish_the_word(word, answered.drop_last());
    }
}

/// With a word typed, what is offered is the whole filter and then the cap: the rows of the
/// answer whose label finishes the word, in the server's order, the first fifty of them - every
/// one of the first fifty such rows, however far into the answer it stands - each as the
/// widget's row. With nothing typed, it is the first fifty rows of the answer as they came.
pub proof fn the_first_fifty_rows_that_finish_the_word_are_offered(
    prefix: Option<Seq<char>>,
    answered: Seq<LspCompletionView>,
    follows_the_caret: Option<char>,
)
    ensures
        prefix matches Some(word) ==> ({
            let finishing = answered.filter(|row: LspCompletionView| finishes(row.label, word));
            let count = if finishing.len() < 50 { finishing.len() as int } else { 50 };
            &&& offered(prefix, answered, follows_the_caret).len() == count
            &&& forall|i: int|
                0 <= i < count ==> #[trigger] offered(prefix, answered, follows_the_caret)[i]
                    == row_of(finishing[i], follows_the_caret)
        }),
        prefix is None ==> ({
            let count = if answered.len() < 50 { answered.len() as int } else { 50 };
            &&& offered(prefix, answered, follows_the_caret).len() == count
            &&& forall|i: int|
                0 <= i < count ==> #[trigger] offered(prefix, answered, follows_the_caret)[i]
                    == row_of(answered[i], follows_the_caret)
        }),
{
    kept_rows_finish_the_word(prefix, answered);
    if let Some(word) = prefix {
        kept_is_the_rows_that_finish_the_word(word, answered);
    }
}

/// After a frame of following, anything still on offer answers exactly the question the caret
/// is on this frame, in an editor that has the keyboard and where the list was neither taken
/// from nor dismissed: a caret that has left the question the list finishes takes the list
/// with it.
pub proof fn what_stays_on_offer_answers_the_question_under_the_caret(
    completing: CompletingView,
    ends_the_list: bool,
    asking: Option<AskedView>,
    focused: bool,
    can_answer: CanAnswer,
    now: u64,
)
    ensures
        following(completing, ends_the_list, asking, focused, can_answer, now).0.offering matches Some(
            offering,
        ) ==> (asking == Some(offering.answers) && focused && !ends_the_list),
        following(completing, ends_the_list, asking, focused, can_answer, now).0.offering matches Some(
            offering,
        ) ==> completing.offering == Some(offering),
{
}

} // verus!
