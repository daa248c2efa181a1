use egui_moon_code_ide::{
    asked_at, rows_for, starts_the_same, Asked, AtTheCaret, CanAnswer, Completing,
    CompletingNext, EditorReport, LspCompletion, LspCompletionKind, Next, TextPoint, Word,
    MOST_ROWS, TYPING_SETTLES_IN,
};

/// A moment well after the clock's origin, so that moments before it can be written too.
const NOW: u64 = 10_000_000_000;

/// A question about a half-typed word, at the end of it.
fn asked(word: &str) -> Asked {
    Asked { prefix: Some(word.to_string()), line: 3, column: word.len() }
}

/// A question about a place with nothing typed towards anything, which is what a trigger
/// character asks.
fn asked_with_no_prefix(column: usize) -> Asked {
    Asked { prefix: None, line: 3, column }
}

fn offered(labels: &[&str]) -> Vec<LspCompletion> {
    labels
        .iter()
        .map(|label| LspCompletion {
            label: label.to_string(),
            detail: None,
            insert: label.to_string(),
            kind: None,
        })
        .collect()
}

/// A burst of typing asks once at the end of it rather than once a keystroke.
#[test]
fn a_word_is_asked_about_once_the_typing_has_stopped_rather_than_once_a_keystroke() {
    let start = NOW;
    let mut completing = Completing::default();

    let mut typed = String::new();
    for (key, letter) in "greet".chars().enumerate() {
        typed.push(letter);
        let at = start + 20_000_000 * key as u64;
        completing.saw(Some(&asked(&typed)), at);
        assert_eq!(completing.next(CanAnswer::Yes, at), Next::Wait, "at key {key}");
    }

    let last = start + 20_000_000 * 4;
    assert_eq!(completing.next(CanAnswer::Yes, last + TYPING_SETTLES_IN / 2), Next::Wait);
    assert_eq!(completing.next(CanAnswer::Yes, last + TYPING_SETTLES_IN), Next::Ask);
}

/// Nothing is asked about a caret sitting on a space, and nothing is asked against a server
/// that has not yet been told the text the caret is in.
#[test]
fn there_is_nothing_to_ask_with_no_word_and_nothing_to_ask_against_a_stale_document() {
    let now = NOW;
    let mut completing = Completing::default();
    completing.saw(None, now);
    assert_eq!(completing.next(CanAnswer::Yes, now), Next::Nothing);

    completing.saw(Some(&asked("greet")), now - TYPING_SETTLES_IN);
    assert_eq!(completing.next(CanAnswer::NotThisText, now), Next::Wait);
    assert_eq!(completing.next(CanAnswer::Yes, now), Next::Ask);
}

/// Nothing is asked while the server is starting, and the word half typed while it was
/// starting is asked about the moment it is ready.
#[test]
fn a_word_typed_while_the_server_is_starting_is_asked_about_once_it_is_ready() {
    let start = NOW;
    let long_enough = start + TYPING_SETTLES_IN;
    let mut completing = Completing::default();
    completing.saw(Some(&asked("greet")), start);

    assert_eq!(completing.next(CanAnswer::StillReadingTheProject, long_enough), Next::Wait);

    assert!(completing.nothing_more_for.is_none());
    assert_eq!(completing.next(CanAnswer::Yes, long_enough), Next::Ask);
}

/// An answer that arrives for a word the person has already finished typing is dropped.
#[test]
fn an_answer_for_a_word_that_has_moved_on_is_dropped() {
    let now = NOW;
    let mut completing = Completing::default();
    completing.saw(Some(&asked("gre")), now);
    completing.asked = Some(asked("gre"));

    // Two more letters went in while the question was out.
    completing.saw(Some(&asked("greet")), now);
    completing.answered(&asked("gre"), Some(offered(&["greet", "greeting"])), None);
    assert!(completing.on_offer().is_empty());
    // And the view is free to ask about the word that is really being typed.
    assert!(completing.asked.is_none());
    assert_eq!(completing.next(CanAnswer::Yes, now + TYPING_SETTLES_IN), Next::Ask);

    // The answer to that one lands while it is still the word being typed, and is shown.
    completing.asked = Some(asked("greet"));
    completing.answered(&asked("greet"), Some(offered(&["greet", "greeting"])), None);
    assert_eq!(completing.on_offer().len(), 2);
}

/// Escape means stop offering. Nothing is asked about that word again; another letter is
/// another word and a fair question.
#[test]
fn a_dismissed_word_is_never_asked_about_again_and_the_next_one_is() {
    let now = NOW;
    let long_enough = now + TYPING_SETTLES_IN;
    let mut completing = Completing { nothing_more_for: Some(asked("greet")), ..Default::default() };

    completing.saw(Some(&asked("greet")), now);
    assert_eq!(completing.next(CanAnswer::Yes, long_enough), Next::Nothing);

    completing.saw(Some(&asked("greeting")), now);
    assert_eq!(completing.next(CanAnswer::Yes, long_enough), Next::Ask);
}

/// A server that answered with nothing is not asked the same question again.
#[test]
fn a_word_the_server_had_nothing_for_is_not_asked_about_again() {
    let now = NOW;
    let mut completing = Completing::default();
    completing.saw(Some(&asked("greet")), now);
    completing.asked = Some(asked("greet"));
    completing.answered(&asked("greet"), Some(Vec::new()), None);

    assert!(completing.on_offer().is_empty());
    assert_eq!(completing.next(CanAnswer::Yes, now + TYPING_SETTLES_IN), Next::Nothing);
}

/// Only the rows that could finish what has been typed are offered, and never more than a
/// screenful of lists.
#[test]
fn only_the_rows_that_could_finish_the_word_are_offered() {
    let rows = rows_for(Some("str"), offered(&["String", "str", "as_ref", "Struct", "u32"]), None);
    let labels: Vec<&str> = rows.iter().map(|row| row.label.as_str()).collect();
    assert_eq!(labels, ["String", "str", "Struct"]);

    let many: Vec<String> = (0..200).map(|number| format!("greet{number}")).collect();
    let many: Vec<&str> = many.iter().map(String::as_str).collect();
    assert_eq!(rows_for(Some("greet"), offered(&many), None).len(), MOST_ROWS);
}

/// The detail and the text to insert are the server's, carried through untouched.
#[test]
fn a_server_row_becomes_an_editor_row_with_its_detail_and_its_insertion_intact() {
    let rows = rows_for(
        Some("gre"),
        vec![LspCompletion {
            label: "greet".to_string(),
            detail: Some("fn(&str) -> String".to_string()),
            insert: "greet(${1:name})".to_string(),
            kind: None,
        }],
        None,
    );

    assert_eq!(rows[0].label, "greet");
    assert_eq!(rows[0].detail.as_deref(), Some("fn(&str) -> String"));
    assert_eq!(rows[0].insert, "greet(${1:name})");
}

/// A function offered by the server is a call by the time the editor has it, and the row
/// beside it is not.
#[test]
fn a_function_in_an_answer_is_offered_as_a_call_and_the_variable_beside_it_is_not() {
    let now = NOW;
    let mut completing = Completing::default();
    completing.saw(Some(&asked("gre")), now);
    completing.asked = Some(asked("gre"));
    completing.answered(
        &asked("gre"),
        Some(vec![
            LspCompletion {
                label: "greet".to_string(),
                detail: None,
                insert: "greet".to_string(),
                kind: Some(LspCompletionKind::Function),
            },
            LspCompletion {
                label: "greeting".to_string(),
                detail: None,
                insert: "greeting".to_string(),
                kind: Some(LspCompletionKind::Variable),
            },
        ]),
        None,
    );

    let rows = completing.on_offer();
    assert_eq!(rows[0].insert, "greet()");
    assert_eq!(rows[0].caret_back, 1);
    assert_eq!(rows[1].insert, "greeting");
    assert_eq!(rows[1].caret_back, 0);
}

/// The same answer where the caret already sits in front of a parenthesis.
#[test]
fn a_function_completed_over_an_existing_call_is_offered_without_a_second_pair() {
    let now = NOW;
    let mut completing = Completing::default();
    completing.saw(Some(&asked("gre")), now);
    completing.asked = Some(asked("gre"));
    completing.answered(
        &asked("gre"),
        Some(vec![LspCompletion {
            label: "greet".to_string(),
            detail: None,
            insert: "greet".to_string(),
            kind: Some(LspCompletionKind::Function),
        }]),
        Some('('),
    );

    assert_eq!(completing.on_offer()[0].insert, "greet");
    assert_eq!(completing.on_offer()[0].caret_back, 0);
}

/// A `.` is worth a list of its own when the server said so; a `,` is not, and a server that
/// named no triggers is asked about nothing but words.
#[test]
fn a_character_the_server_calls_a_trigger_is_asked_about_with_no_prefix_and_nothing_else_is() {
    let caret = TextPoint { offset: 40, line: 3, column: 14 };
    let triggers = ['.', ':', '\'', '('];
    let behind = |typed| AtTheCaret { typed: Some(typed), triggers: &triggers };

    let after_a_dot = asked_at(None, Some(&caret), behind('.'))
        .expect("a trigger the server named is worth asking about");
    assert_eq!(after_a_dot.prefix(), None);
    assert_eq!(after_a_dot.at().column, 14);

    assert_eq!(asked_at(None, Some(&caret), behind(',')), None);
    assert_eq!(asked_at(None, Some(&caret), AtTheCaret { typed: None, triggers: &triggers }), None);

    assert_eq!(asked_at(None, Some(&caret), AtTheCaret { typed: Some('.'), triggers: &[] }), None);

    assert_eq!(
        asked_at(Some("gre"), Some(&caret), behind('e')).expect("a word is a question").prefix(),
        Some("gre")
    );
}

/// With nothing typed towards anything, the rows stand in the order the server sent them.
#[test]
fn an_answer_with_no_prefix_to_filter_on_keeps_the_order_the_server_sent_it_in() {
    let rows = rows_for(None, offered(&["zip", "alpha", "Middle", "u32"]), None);
    let labels: Vec<&str> = rows.iter().map(|row| row.label.as_str()).collect();
    assert_eq!(labels, ["zip", "alpha", "Middle", "u32"]);

    let many: Vec<String> = (0..200).map(|number| format!("field{number}")).collect();
    let many: Vec<&str> = many.iter().map(String::as_str).collect();
    assert_eq!(rows_for(None, offered(&many), None).len(), MOST_ROWS);
}

/// The `.` typed after a dismissed word is a different question and a fair one.
#[test]
fn a_dismissed_word_does_not_stop_a_trigger_typed_after_it_from_being_asked_about() {
    let now = NOW;
    let long_enough = now + TYPING_SETTLES_IN;
    let mut completing = Completing { nothing_more_for: Some(asked("greet")), ..Default::default() };
    completing.saw(Some(&asked("greet")), now);
    assert_eq!(completing.next(CanAnswer::Yes, long_enough), Next::Nothing);

    completing.saw(Some(&asked_with_no_prefix("greet.".len())), now);
    assert_eq!(completing.next(CanAnswer::Yes, long_enough), Next::Ask);
}

/// A place the server had nothing to offer at is not asked about again, but the next trigger
/// is its own question.
#[test]
fn a_trigger_the_server_had_nothing_for_leaves_the_next_one_worth_asking_about() {
    let now = NOW;
    let long_enough = now + TYPING_SETTLES_IN;
    let mut completing = Completing::default();

    let first_colon = asked_with_no_prefix(4);
    completing.saw(Some(&first_colon), now);
    completing.asked = Some(first_colon.clone());
    completing.answered(&first_colon, Some(Vec::new()), None);
    assert!(completing.on_offer().is_empty());
    assert_eq!(completing.next(CanAnswer::Yes, long_enough), Next::Nothing);

    let second_colon = asked_with_no_prefix(5);
    completing.saw(Some(&second_colon), now);
    assert_eq!(completing.next(CanAnswer::Yes, long_enough), Next::Ask);

    completing.asked = Some(second_colon.clone());
    completing.answered(&second_colon, Some(offered(&["fs", "io", "vec"])), None);
    assert_eq!(completing.on_offer().len(), 3);
}

/// Case is ignored for ASCII letters and for nothing else, and a word longer than the row
/// does not finish it.
#[test]
fn a_row_finishes_a_word_ignoring_ascii_case_only() {
    assert!(starts_the_same("String", "str"));
    assert!(starts_the_same("str", "STR"));
    assert!(!starts_the_same("st", "str"));
    assert!(!starts_the_same("Éa", "éa"));
    assert!(starts_the_same("anything", ""));
}

fn report(word: Option<&str>, column: usize) -> EditorReport {
    EditorReport {
        word_being_typed: word.map(|text| Word {
            text: text.to_string(),
            at: TextPoint { offset: 0, line: 3, column: 0 },
        }),
        caret: Some(TextPoint { offset: column, line: 3, column }),
        completion_taken: false,
        completion_dismissed: false,
        focused: true,
    }
}

/// Following the caret frame by frame: wait out the pause, ask once, show the answer, and put
/// it away with Escape without asking about the same word again.
#[test]
fn a_word_followed_frame_by_frame_is_asked_once_and_put_away_by_escape() {
    let now = NOW;
    let mut completing = Completing::default();
    let none = AtTheCaret { typed: Some('t'), triggers: &[] };
    assert_eq!(completing.follow(&report(Some("greet"), 5), none, CanAnswer::Yes, now), CompletingNext::Wait);
    let CompletingNext::Ask(asked) =
        completing.follow(&report(Some("greet"), 5), none, CanAnswer::Yes, now + TYPING_SETTLES_IN)
    else {
        panic!("the typing stopped on a word");
    };
    assert_eq!(asked.prefix(), Some("greet"));
    assert_eq!(
        completing.follow(&report(Some("greet"), 5), none, CanAnswer::Yes, now + 2 * TYPING_SETTLES_IN),
        CompletingNext::Nothing
    );
    completing.answered(&asked, Some(offered(&["greet", "greeting"])), None);
    assert_eq!(completing.on_offer().len(), 2);

    let mut escaped = report(Some("greet"), 5);
    escaped.completion_dismissed = true;
    assert_eq!(completing.follow(&escaped, none, CanAnswer::Yes, now + 3 * TYPING_SETTLES_IN), CompletingNext::Nothing);
    assert!(completing.on_offer().is_empty());
    assert_eq!(
        completing.follow(&report(Some("greet"), 5), none, CanAnswer::Yes, now + 4 * TYPING_SETTLES_IN),
        CompletingNext::Nothing
    );
}

/// The list goes when the editor loses the keyboard.
#[test]
fn a_list_is_put_away_when_the_editor_loses_the_keyboard() {
    let now = NOW;
    let mut completing = Completing::default();
    let none = AtTheCaret { typed: Some('t'), triggers: &[] };
    completing.follow(&report(Some("gre"), 3), none, CanAnswer::Yes, now);
    let CompletingNext::Ask(asked) =
        completing.follow(&report(Some("gre"), 3), none, CanAnswer::Yes, now + TYPING_SETTLES_IN)
    else {
        panic!("the typing stopped on a word");
    };
    completing.answered(&asked, Some(offered(&["greet"])), None);
    assert_eq!(completing.on_offer().len(), 1);
    let mut unfocused = report(Some("gre"), 3);
    unfocused.focused = false;
    completing.follow(&unfocused, none, CanAnswer::Yes, now + TYPING_SETTLES_IN);
    assert!(completing.on_offer().is_empty());
}
