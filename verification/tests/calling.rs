use egui_moon_code_ide::{follows_the_caret, row_for, takes_parentheses, LspCompletion, LspCompletionKind};

fn offered(label: &str, kind: Option<LspCompletionKind>) -> LspCompletion {
    LspCompletion { label: label.to_string(), detail: None, insert: label.to_string(), kind }
}

/// The line `line` of `text`, as the position arithmetic hands it over.
fn line_of(text: &str, line: usize) -> Option<&str> {
    text.lines().nth(line)
}

/// A function comes out of the list as a call, with the caret where the first argument goes.
#[test]
fn taking_a_function_writes_the_parentheses_and_leaves_the_caret_between_them() {
    for kind in [LspCompletionKind::Function, LspCompletionKind::Method, LspCompletionKind::Constructor] {
        let row = row_for(offered("greet", Some(kind)), None);
        assert_eq!(row.insert, "greet()", "{kind:?}");
        assert_eq!(row.caret_back, 1, "{kind:?}");
        assert_eq!(row.label, "greet", "{kind:?}");
    }
}

/// Everything that is not called goes in exactly as the server sent it.
#[test]
fn taking_a_variable_or_a_field_or_a_module_writes_no_parentheses() {
    for kind in [
        LspCompletionKind::Variable,
        LspCompletionKind::Field,
        LspCompletionKind::Module,
        LspCompletionKind::Keyword,
        LspCompletionKind::Struct,
    ] {
        let row = row_for(offered("greeting", Some(kind)), None);
        assert_eq!(row.insert, "greeting", "{kind:?}");
        assert_eq!(row.caret_back, 0, "{kind:?}");
    }
}

/// A server that said nothing about what it offered is not read as having said "function".
#[test]
fn an_item_with_no_kind_at_all_is_not_taken_for_a_call() {
    let row = row_for(offered("greet", None), None);
    assert_eq!(row.insert, "greet");
    assert_eq!(row.caret_back, 0);
    assert!(!takes_parentheses(None));
}

/// Completing over a call that is already there: the parentheses are the ones already in the
/// line rather than a second pair.
#[test]
fn a_caret_already_in_front_of_a_parenthesis_gets_no_second_pair() {
    let row = row_for(offered("greet", Some(LspCompletionKind::Function)), Some('('));
    assert_eq!(row.insert, "greet");
    assert_eq!(row.caret_back, 0);

    // And the character that says so is read off the buffer at the place asked about.
    let text = "let x = 1;\nlet y = gre(x);\n";
    assert_eq!(follows_the_caret(line_of(text, 1), "let y = gre".len()), Some('('));
}

/// A server that wrote the call itself is left to it, and the end of a line is nothing to read.
#[test]
fn a_server_that_wrote_the_call_itself_is_left_alone_and_a_line_ends_in_nothing() {
    let mut item = offered("greet", Some(LspCompletionKind::Function));
    item.insert = "greet(name)".to_string();
    let row = row_for(item, None);
    assert_eq!(row.insert, "greet(name)");
    assert_eq!(row.caret_back, 0);

    let text = "gre\n";
    assert_eq!(follows_the_caret(line_of(text, 0), 3), None);
    assert_eq!(follows_the_caret(line_of(text, 9), 0), None);
}

/// Only a function, a method and a constructor are called, and a detail is carried through.
#[test]
fn only_the_three_called_kinds_take_parentheses() {
    assert!(takes_parentheses(Some(LspCompletionKind::Function)));
    assert!(takes_parentheses(Some(LspCompletionKind::Method)));
    assert!(takes_parentheses(Some(LspCompletionKind::Constructor)));
    assert!(!takes_parentheses(Some(LspCompletionKind::Class)));
    assert!(!takes_parentheses(Some(LspCompletionKind::TypeParameter)));
    let mut item = offered("add", Some(LspCompletionKind::Method));
    item.detail = Some("fn(u32) -> u32".to_string());
    let row = row_for(item, Some(' '));
    assert_eq!(row.insert, "add()");
    assert_eq!(row.detail.as_deref(), Some("fn(u32) -> u32"));
}

/// A column inside a character, or past the end of the line, is in front of nothing.
#[test]
fn a_column_inside_a_character_or_past_the_line_is_in_front_of_nothing() {
    assert_eq!(follows_the_caret(Some("é("), 1), None);
    assert_eq!(follows_the_caret(Some("é("), 2), Some('('));
    assert_eq!(follows_the_caret(Some("ab"), 5), None);
    assert_eq!(follows_the_caret(None, 0), None);
}
