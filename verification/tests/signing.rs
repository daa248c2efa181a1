use egui_moon_code_ide::{
    inside_a_call, CanAnswer, LspPosition, LspSignature, Signing, SigningNext,
    SIGNATURE_SETTLES_IN,
};

/// A moment well after the clock's origin.
const START: u64 = 10_000_000_000;

fn at(line: usize, column: usize) -> LspPosition {
    LspPosition { line, column }
}

fn signature() -> LspSignature {
    LspSignature {
        label: "fn add(a: u32, b: u32) -> u32".to_string(),
        active_parameter: Some(15..21),
        documentation: None,
    }
}

/// On one line, the caret's offset into the text is its column.
#[test]
fn the_caret_is_inside_a_call_only_behind_an_unclosed_parenthesis() {
    let text = "fn main() { add(1, max(2, 3), ); }";
    assert!(inside_a_call(text, "fn main() { add(1, ".len()));
    assert!(inside_a_call(text, "fn main() { add(1, max(2, 3), ".len()));
    assert!(!inside_a_call(text, "fn main() { ".len()));
    assert!(!inside_a_call(text, "fn main(".len() + 1));
}

/// Asked once the caret has stayed put, once per place, and kept on screen while the typing
/// goes on until the next answer replaces it.
#[test]
fn a_call_is_asked_about_once_the_caret_has_settled_and_the_answer_stays_while_typing() {
    let start = START;
    let mut signing = Signing::default();
    let text = "add(1, ";
    let caret = Some(at(0, text.len()));
    let offset = Some(text.len());

    assert_eq!(
        signing.follow(caret, offset, text, CanAnswer::Yes, start),
        SigningNext::Wait(SIGNATURE_SETTLES_IN)
    );
    let SigningNext::Ask(asked) =
        signing.follow(caret, offset, text, CanAnswer::Yes, start + SIGNATURE_SETTLES_IN)
    else {
        panic!("the caret settled inside a call");
    };
    signing.answered(asked, Some(signature()));
    assert_eq!(signing.showing(), Some(&signature()));
    assert_eq!(
        signing.follow(caret, offset, text, CanAnswer::Yes, start + SIGNATURE_SETTLES_IN * 2),
        SigningNext::Nothing
    );

    // Typing on: the text the server has not heard is not asked about, and what was said stays
    // up.
    let typed = "add(1, 2";
    assert_eq!(
        signing.follow(
            Some(at(0, typed.len())),
            Some(typed.len()),
            typed,
            CanAnswer::NotThisText,
            start + SIGNATURE_SETTLES_IN * 3
        ),
        SigningNext::Nothing
    );
    assert!(signing.showing().is_some());

    // Out of the call, and it goes.
    let closed = "add(1, 2)";
    signing.follow(
        Some(at(0, closed.len())),
        Some(closed.len()),
        closed,
        CanAnswer::Yes,
        start + SIGNATURE_SETTLES_IN * 4,
    );
    assert_eq!(signing.showing(), None);
}

/// An answer about a place the caret has left is not the answer to show.
#[test]
fn an_answer_about_a_place_since_left_is_dropped() {
    let start = START;
    let mut signing = Signing::default();
    let text = "add(1, ";
    signing.follow(Some(at(0, 4)), Some(4), text, CanAnswer::Yes, start);
    let SigningNext::Ask(first) =
        signing.follow(Some(at(0, 4)), Some(4), text, CanAnswer::Yes, start + SIGNATURE_SETTLES_IN)
    else {
        panic!("the caret settled inside a call");
    };
    signing.follow(Some(at(0, 7)), Some(7), text, CanAnswer::Yes, start + SIGNATURE_SETTLES_IN);
    signing.follow(
        Some(at(0, 7)),
        Some(7),
        text,
        CanAnswer::Yes,
        start + SIGNATURE_SETTLES_IN * 2,
    );
    signing.answered(first, Some(signature()));
    assert_eq!(signing.showing(), None);
}

/// How long is left is what the caller is told to wait, and a place that is not in the text
/// is no call at all.
#[test]
fn the_wait_counts_down_and_a_caret_outside_the_text_is_no_call() {
    let start = START;
    let mut signing = Signing::default();
    let text = "f(";
    assert_eq!(
        signing.follow(Some(at(0, 2)), Some(2), text, CanAnswer::Yes, start),
        SigningNext::Wait(SIGNATURE_SETTLES_IN)
    );
    assert_eq!(
        signing.follow(Some(at(0, 2)), Some(2), text, CanAnswer::Yes, start + 100_000_000),
        SigningNext::Wait(SIGNATURE_SETTLES_IN - 100_000_000)
    );
    assert_eq!(
        signing.follow(Some(at(3, 0)), None, text, CanAnswer::Yes, start + SIGNATURE_SETTLES_IN),
        SigningNext::Nothing
    );
    // Escape puts a shown signature away.
    let SigningNext::Ask(asked) = ({
        signing.follow(Some(at(0, 2)), Some(2), text, CanAnswer::Yes, start);
        signing.follow(Some(at(0, 2)), Some(2), text, CanAnswer::Yes, start + SIGNATURE_SETTLES_IN)
    }) else {
        panic!("the caret settled inside a call");
    };
    signing.answered(asked, Some(signature()));
    signing.dismiss();
    assert_eq!(signing.showing(), None);
}

/// A call is looked for no further back than the look-back reaches, and a statement or a block
/// at the same depth ends the looking.
#[test]
fn a_statement_or_a_block_before_the_parenthesis_is_not_a_call() {
    assert!(!inside_a_call("f(); ", 5));
    assert!(!inside_a_call("{ x", 3));
    assert!(inside_a_call("f(g(1), ", 8));
    let far = format!("f({}", " ".repeat(5_000));
    assert!(!inside_a_call(&far, far.len()));
}
