//! When the signature of the call being typed is worth asking a server for, and which answer
//! is still the one to show.
//!
//! Asked only while the caret sits inside an unclosed `(`, and once the caret has paused on
//! text the server has heard: a signature asked about text it does not have is the signature
//! of another call. Each place is asked about once, and what was said stays on screen while the
//! typing goes on until the next answer replaces it.
//!
//! Nothing here calls anything or reads a clock; the caller passes the time in.

use vstd::prelude::*;
use vstd::string::StringSliceAdditionalSpecFns;

use crate::clock::{elapsed, elapsed_since};
use crate::document::CanAnswer;
use crate::source::{LspPosition, LspSignature};
use crate::text::chars_of;

verus! {

/// How long the caret has to have stayed put, on text the server has heard, before the call it
/// is in is asked about, in nanoseconds. Short, because the document sync has already waited
/// for the typing to stop before the server heard the text at all.
pub const SIGNATURE_SETTLES_IN: u64 = 150_000_000;

/// How many characters back from the caret an unclosed `(` is looked for.
pub const LOOKS_BACK: usize = 4_000;

/// The text in front of the byte `offset` of `bytes`, as characters.
pub open spec fn text_before(bytes: Seq<u8>, offset: int) -> Seq<char> {
    vstd::utf8::decode_utf8(bytes.subrange(0, offset))
}

/// Looking back from the end of `before` through at most `budget` characters, with `depth`
/// closing parentheses still to be matched: whether an unclosed `(` comes first. A `;` or a
/// brace at the same depth first is a statement or a block, not the inside of a call.
pub open spec fn opens_a_call(before: Seq<char>, depth: nat, budget: nat) -> bool
    decreases before.len(),
{
    if before.len() == 0 || budget == 0 {
        false
    } else {
        let c = before.last();
        let rest = before.drop_last();
        if c == ')' {
            opens_a_call(rest, depth + 1, (budget - 1) as nat)
        } else if c == '(' {
            if depth == 0 {
                true
            } else {
                opens_a_call(rest, (depth - 1) as nat, (budget - 1) as nat)
            }
        } else if (c == ';' || c == '{' || c == '}') && depth == 0 {
            false
        } else {
            opens_a_call(rest, depth, (budget - 1) as nat)
        }
    }
}

/// Whether a caret `offset` bytes into `text` sits inside an unclosed `(`, looking back no
/// more than [`LOOKS_BACK`] characters - the one cheap thing every language here agrees a
/// call looks like.
pub fn inside_a_call(text: &str, offset: usize) -> (inside: bool)
    requires
        vstd::utf8::is_char_boundary(text.spec_bytes(), offset as int),
    ensures
        inside == opens_a_call(text_before(text.spec_bytes(), offset as int), 0, LOOKS_BACK as nat),
{
    proof {
        vstd::utf8::encode_utf8_valid_utf8(text@);
    }
    let (before, _) = text.split_at(offset);
    proof {
        vstd::utf8::encode_utf8_decode_utf8(before@);
    }
    let chars = chars_of(before);
    let ghost whole = chars@;
    proof {
        assert(before.spec_bytes() =~= text.spec_bytes().subrange(0, offset as int));
        assert(whole == text_before(text.spec_bytes(), offset as int));
        assert(whole.take(whole.len() as int) =~= whole);
    }
    let mut left: usize = chars.len();
    let mut depth: usize = 0;
    let mut budget: usize = LOOKS_BACK;
    while left > 0 && budget > 0
        invariant
            chars@ == whole,
            whole == text_before(text.spec_bytes(), offset as int),
            left <= whole.len(),
            depth <= LOOKS_BACK - budget,
            budget <= LOOKS_BACK,
            opens_a_call(whole, 0, LOOKS_BACK as nat) == opens_a_call(
                whole.take(left as int),
                depth as nat,
                budget as nat,
            ),
        decreases left,
    {
        let c = chars[left - 1];
        let ghost here = whole.take(left as int);
        proof {
            assert(here.last() == c);
            assert(here.drop_last() =~= whole.take(left - 1));
        }
        if c == ')' {
            depth = depth + 1;
        } else if c == '(' {
            if depth == 0 {
                return true;
            }
            depth = depth - 1;
        } else if (c == ';' || c == '{' || c == '}') && depth == 0 {
            return false;
        }
        left = left - 1;
        budget = budget - 1;
    }
    proof {
        assert(whole.take(whole.len() as int) =~= whole);
    }
    false
}

/// One place a signature was asked about: where the caret was, and how long the text was -
/// which is what tells the same caret in a text typed into since from the one asked about.
#[derive(Clone, Copy, PartialEq, Eq, Debug, Structural)]
pub struct SignedAt {
    /// Where the caret was.
    pub at: LspPosition,
    /// How long the text was, in bytes.
    pub text_len: usize,
}

/// What to do about the caret this frame.
#[derive(Clone, Copy, PartialEq, Eq, Debug, Structural)]
pub enum SigningNext {
    /// Nothing to ask.
    Nothing,
    /// The caret has not stayed put long enough yet; draw again this many nanoseconds from
    /// now.
    Wait(u64),
    /// Ask about the call at this place, and hand the answer back with
    /// [`Signing::answered`].
    Ask(SignedAt),
}

/// What has been asked about the call the caret is in, and what to show.
pub struct Signing {
    /// The place the caret is at, and since when.
    pub seen: Option<(SignedAt, u64)>,
    /// The place a question is out about.
    pub asked: Option<SignedAt>,
    /// The place the last answer was about.
    pub answered_at: Option<SignedAt>,
    /// What to show.
    pub shown: Option<LspSignature>,
}

/// A [`Signing`] as values: what is shown is carried as the signature itself, since nothing
/// here looks inside it.
pub struct SigningView {
    pub seen: Option<(SignedAt, u64)>,
    pub asked: Option<SignedAt>,
    pub answered_at: Option<SignedAt>,
    pub shown: Option<LspSignature>,
}

impl View for Signing {
    type V = SigningView;

    open spec fn view(&self) -> SigningView {
        SigningView {
            seen: self.seen,
            asked: self.asked,
            answered_at: self.answered_at,
            shown: self.shown,
        }
    }
}

impl Default for Signing {
    /// Nothing seen, asked or shown.
    fn default() -> (signing: Self)
        ensures
            signing@ == (SigningView { seen: None, asked: None, answered_at: None, shown: None }),
    {
        Signing { seen: None, asked: None, answered_at: None, shown: None }
    }
}

/// A frame of following the caret, given whether it sits inside a call and where it is.
///
/// Out of a call there is no call to show, and everything is let go. In one, the place is taken
/// note of, and it is asked about only when it has not been asked or answered already, the
/// server can answer about this text, and the caret has stayed there for
/// [`SIGNATURE_SETTLES_IN`]; before then, the caller is told how long is left.
pub open spec fn signing_frame(
    signing: SigningView,
    here: Option<SignedAt>,
    can_answer: CanAnswer,
    now: u64,
) -> (SigningView, SigningNext) {
    match here {
        None => (
            SigningView { seen: None, answered_at: None, shown: None, ..signing },
            SigningNext::Nothing,
        ),
        Some(here) => {
            let since = match signing.seen {
                Some((seen, since)) => if seen == here {
                    since
                } else {
                    now
                },
                None => now,
            };
            let seen = SigningView { seen: Some((here, since)), ..signing };
            if signing.asked == Some(here) || signing.answered_at == Some(here) || can_answer
                != CanAnswer::Yes {
                (seen, SigningNext::Nothing)
            } else if elapsed(now, since) < SIGNATURE_SETTLES_IN {
                (seen, SigningNext::Wait((SIGNATURE_SETTLES_IN - elapsed(now, since)) as u64))
            } else {
                (SigningView { asked: Some(here), ..seen }, SigningNext::Ask(here))
            }
        },
    }
}

/// The place the caret is at, when it sits inside a call: where it is and how long the text
/// is.
pub open spec fn call_place(text: &str, caret: Option<LspPosition>, offset: Option<usize>) -> Option<
    SignedAt,
> {
    match (caret, offset) {
        (Some(at), Some(offset)) => if opens_a_call(
            text_before(text.spec_bytes(), offset as int),
            0,
            LOOKS_BACK as nat,
        ) {
            Some(SignedAt { at, text_len: text.spec_bytes().len() as usize })
        } else {
            None
        },
        _ => None,
    }
}

/// What the server's answer about `asked` makes of the state: shown, and that place answered,
/// if it is the place a question is out about; otherwise nothing at all.
pub open spec fn signing_answered(
    signing: SigningView,
    asked: SignedAt,
    signature: Option<LspSignature>,
) -> SigningView {
    if signing.asked == Some(asked) {
        SigningView { asked: None, answered_at: Some(asked), shown: signature, ..signing }
    } else {
        signing
    }
}

impl Signing {
    /// Follow the caret through `text`.
    ///
    /// `offset` is the caret's byte offset into `text`, as the position arithmetic works it
    /// out; `None` where the caret's position is not a place in the text, which is no call.
    pub fn follow(
        &mut self,
        caret: Option<LspPosition>,
        offset: Option<usize>,
        text: &str,
        can_answer: CanAnswer,
        now: u64,
    ) -> (next: SigningNext)
        requires
            offset matches Some(offset) ==> vstd::utf8::is_char_boundary(
                text.spec_bytes(),
                offset as int,
            ),
        ensures
            (final(self)@, next) == signing_frame(
                old(self)@,
                call_place(text, caret, offset),
                can_answer,
                now,
            ),
    {
        let at = match (caret, offset) {
            (Some(at), Some(offset)) => if inside_a_call(text, offset) {
                Some(at)
            } else {
                None
            },
            _ => None,
        };
        let at = match at {
            Some(at) => at,
            None => {
                self.seen = None;
                self.answered_at = None;
                self.shown = None;
                return SigningNext::Nothing;
            },
        };
        let here = SignedAt { at, text_len: text.len() };
        let since = match self.seen {
            Some((seen, since)) => if seen == here {
                since
            } else {
                now
            },
            None => now,
        };
        self.seen = Some((here, since));
        if self.asked == Some(here) || self.answered_at == Some(here) || can_answer
            != CanAnswer::Yes {
            return SigningNext::Nothing;
        }
        let stayed = elapsed_since(now, since);
        if stayed < SIGNATURE_SETTLES_IN {
            return SigningNext::Wait(SIGNATURE_SETTLES_IN - stayed);
        }
        self.asked = Some(here);
        SigningNext::Ask(here)
    }

    /// What the server said about a place. An answer about a place that is no longer the one
    /// asked about is dropped; nothing, or a question that could not be answered, is nothing
    /// to show.
    pub fn answered(&mut self, asked: SignedAt, signature: Option<LspSignature>)
        ensures
            final(self)@ == signing_answered(old(self)@, asked, signature),
    {
        if self.asked != Some(asked) {
            return;
        }
        self.asked = None;
        self.answered_at = Some(asked);
        self.shown = signature;
    }

    /// The signature to show, if there is one.
    pub fn showing(&self) -> (shown: Option<&LspSignature>)
        ensures
            shown == match self.shown {
                Some(signature) => Some(&signature),
                None => None,
            },
    {
        match &self.shown {
            Some(signature) => Some(signature),
            None => None,
        }
    }

    /// Put the signature away - Escape - until the caret moves to a place worth asking about.
    pub fn dismiss(&mut self)
        ensures
            final(self)@ == (SigningView { shown: None, ..old(self)@ }),
    {
        self.shown = None;
    }
}

/// Each place is asked about once: a frame asks only about a place not already asked or
/// answered about, marks it asked, and the next frame at the same place asks nothing.
pub proof fn each_place_is_asked_about_once(
    signing: SigningView,
    here: SignedAt,
    can_answer: CanAnswer,
    now: u64,
    then_can_answer: CanAnswer,
    then: u64,
)
    requires
        signing_frame(signing, Some(here), can_answer, now).1 == SigningNext::Ask(here),
    ensures
        signing.asked != Some(here),
        signing.answered_at != Some(here),
        can_answer == CanAnswer::Yes,
        signing_frame(signing_frame(signing, Some(here), can_answer, now).0, Some(here), then_can_answer, then).1
            == SigningNext::Nothing,
{
}

/// Only a caret inside a call is asked about, and only once it has stayed put for
/// [`SIGNATURE_SETTLES_IN`]; out of a call, nothing is shown.
pub proof fn only_a_settled_caret_in_a_call_is_asked_about(
    signing: SigningView,
    here: Option<SignedAt>,
    can_answer: CanAnswer,
    now: u64,
)
    ensures
        here is None ==> signing_frame(signing, here, can_answer, now) == (
            SigningView { seen: None, answered_at: None, shown: None, ..signing },
            SigningNext::Nothing,
        ),
        signing_frame(signing, here, can_answer, now).1 is Ask ==> (signing_frame(
            signing,
            here,
            can_answer,
            now,
        ).0.seen matches Some((_, since)) && elapsed(now, since) >= SIGNATURE_SETTLES_IN),
{
}

/// An answer about a place that is no longer the one asked about leaves everything as it was;
/// the answer about the place asked about is shown, and that place is not asked about again.
pub proof fn only_the_answer_about_the_place_asked_is_shown(
    signing: SigningView,
    asked: SignedAt,
    signature: Option<LspSignature>,
    can_answer: CanAnswer,
    now: u64,
)
    ensures
        signing.asked != Some(asked) ==> signing_answered(signing, asked, signature) == signing,
        signing.asked == Some(asked) ==> signing_answered(signing, asked, signature).shown
            == signature,
        signing.asked == Some(asked) ==> signing_frame(
            signing_answered(signing, asked, signature),
            Some(asked),
            can_answer,
            now,
        ).1 == SigningNext::Nothing,
{
}

/// A place is never asked about on the frame the caret first comes to it: the wait starts
/// over wherever the caret moves, so a caret moving through a call asks nothing until it stops.
pub proof fn a_new_place_waits_out_the_pause(
    signing: SigningView,
    here: SignedAt,
    can_answer: CanAnswer,
    now: u64,
)
    requires
        !(signing.seen matches Some((seen, _)) && seen == here),
    ensures
        !(signing_frame(signing, Some(here), can_answer, now).1 is Ask),
{
}

/// Whether a character means anything to the looking back: a parenthesis, a `;` or a brace.
pub open spec fn stops_the_looking(c: char) -> bool {
    c == '(' || c == ')' || c == ';' || c == '{' || c == '}'
}

/// Characters that are none of those are passed over, one of the budget each.
proof fn plain_text_is_passed_over(before: Seq<char>, plain: Seq<char>, depth: nat, budget: nat)
    requires
        plain.len() < budget,
        forall|i: int| 0 <= i < plain.len() ==> !stops_the_looking(#[trigger] plain[i]),
    ensures
        opens_a_call(before + plain, depth, budget) == opens_a_call(
            before,
            depth,
            (budget - plain.len()) as nat,
        ),
    decreases plain.len(),
{
    if plain.len() > 0 {
        let shorter = plain.drop_last();
        assert((before + plain).drop_last() =~= before + shorter);
        assert((before + plain).last() == plain.last());
        assert(!stops_the_looking(plain[plain.len() - 1]));
        plain_text_is_passed_over(before, shorter, depth, (budget - 1) as nat);
    }
}

/// Looking back from the caret over text with no parenthesis, `;` or brace in it, within the
/// look-back: an unclosed `(` met first is a call the caret is inside, and a `;` or either
/// brace met first is a statement or a block - the caret is not inside a call, whatever stands
/// before it.
pub proof fn a_statement_or_a_block_ends_the_looking_and_a_parenthesis_opens_a_call(
    before: Seq<char>,
    met: char,
    plain: Seq<char>,
    budget: nat,
)
    requires
        plain.len() < budget,
        forall|i: int| 0 <= i < plain.len() ==> !stops_the_looking(#[trigger] plain[i]),
    ensures
        (met == ';' || met == '{' || met == '}') ==> !opens_a_call(before.push(met) + plain, 0, budget),
        met == '(' ==> opens_a_call(before.push(met) + plain, 0, budget),
{
    plain_text_is_passed_over(before.push(met), plain, 0, budget);
    assert(before.push(met).last() == met);
    assert(before.push(met).drop_last() =~= before);
}

/// The look-back stops where its budget does: text with nothing in it that means anything,
/// as long as or longer than what is left of the budget, hides whatever stands before it.
proof fn a_long_stretch_of_plain_text_hides_what_is_before_it(
    before: Seq<char>,
    plain: Seq<char>,
    depth: nat,
    budget: nat,
)
    requires
        plain.len() >= budget,
        forall|i: int| 0 <= i < plain.len() ==> !stops_the_looking(#[trigger] plain[i]),
    ensures
        !opens_a_call(before + plain, depth, budget),
    decreases plain.len(),
{
    if budget > 0 {
        let shorter = plain.drop_last();
        assert((before + plain).drop_last() =~= before + shorter);
        assert((before + plain).last() == plain.last());
        assert(!stops_the_looking(plain[plain.len() - 1]));
        a_long_stretch_of_plain_text_hides_what_is_before_it(before, shorter, depth, (budget - 1) as nat);
    }
}

/// A call is looked for no further back than the look-back: an unclosed `(` further back than
/// [`LOOKS_BACK`] characters of plain text is not a call the caret is taken to be inside.
pub proof fn a_call_further_back_than_the_look_back_is_not_seen(before: Seq<char>, plain: Seq<char>)
    requires
        plain.len() >= LOOKS_BACK,
        forall|i: int| 0 <= i < plain.len() ==> !stops_the_looking(#[trigger] plain[i]),
    ensures
        !opens_a_call(before.push('(') + plain, 0, LOOKS_BACK as nat),
{
    a_long_stretch_of_plain_text_hides_what_is_before_it(before.push('('), plain, 0, LOOKS_BACK as nat);
}

/// A call closed before the caret is passed over: behind `(inner)` the looking goes on to what
/// stands before it, so a caret after a finished call inside an unclosed `(` is inside that
/// call, and one after a finished call behind a `;` or a brace is not.
pub proof fn a_finished_call_is_passed_over(
    before: Seq<char>,
    met: char,
    inner: Seq<char>,
    after: Seq<char>,
)
    requires
        inner.len() + after.len() + 2 < LOOKS_BACK,
        forall|i: int| 0 <= i < inner.len() ==> !stops_the_looking(#[trigger] inner[i]),
        forall|i: int| 0 <= i < after.len() ==> !stops_the_looking(#[trigger] after[i]),
    ensures
        met == '(' ==> opens_a_call(
            before.push(met).push('(') + inner + seq![')'] + after,
            0,
            LOOKS_BACK as nat,
        ),
        (met == ';' || met == '{' || met == '}') ==> !opens_a_call(
            before.push(met).push('(') + inner + seq![')'] + after,
            0,
            LOOKS_BACK as nat,
        ),
{
    let head = before.push(met).push('(') + inner + seq![')'];
    plain_text_is_passed_over(head, after, 0, LOOKS_BACK as nat);
    let b1 = (LOOKS_BACK - after.len()) as nat;
    assert(head.last() == ')');
    assert(head.drop_last() =~= before.push(met).push('(') + inner);
    plain_text_is_passed_over(before.push(met).push('('), inner, 1, (b1 - 1) as nat);
    let b2 = (b1 - 1 - inner.len()) as nat;
    let opened = before.push(met).push('(');
    assert(opened.last() == '(');
    assert(opened.drop_last() =~= before.push(met));
    assert(before.push(met).last() == met);
    assert(before.push(met).drop_last() =~= before);
    assert(opens_a_call(opened, 1, b2) == opens_a_call(before.push(met), 0, (b2 - 1) as nat));
}

} // verus!
