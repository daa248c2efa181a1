use egui_moon_code_ide::{
    Ask, Definition, EditorReport, EditorState, Heard, LookUp, LspCompletion,
    LspCompletionKind, LspLocation, LspStatus, StatusAbout, TextPoint, Word, Served,
    CanAnswer, DocumentOwed, TELLING_AGAIN_IN, TYPING_SETTLES_IN,
};

/// A moment well after the clock's origin.
const NOW: u64 = 10_000_000_000;

fn greet() -> Word {
    Word { text: "greet".to_string(), at: TextPoint { offset: 3, line: 0, column: 3 } }
}

/// An editor whose server has said `status`, with the text opened on it.
fn editor_on(status: LspStatus, text: &str) -> EditorState {
    let mut state = EditorState::new(Some("rust".to_string()));
    state.keep_the_document_up(text, NOW);
    state.hear(Heard::Status { about: StatusAbout::WhetherServed, status }, None, NOW);
    state.keep_the_document_up(text, NOW);
    state.hear(Heard::Told { text: text.to_string(), heard: true }, None, NOW);
    state
}

/// What a modifier-click on `greet` comes to, against a server that says `status` and answers
/// the question about its definition with `places`.
fn what_a_modifier_click_comes_to(status: LspStatus, places: Vec<LspLocation>) -> Definition {
    let mut state = editor_on(status, "fn greet() {}\n");
    match state.look_up(greet()) {
        LookUp::Landed(definition) => definition,
        LookUp::Ask(Ask::Definition { word, .. }) => {
            state.hear(Heard::Definition { word, places: Some(places) }, None, NOW);
            state.take_landed(None).expect("the answer landed")
        }
        LookUp::Ask(_) => panic!("a click asks where the name is defined"),
    }
}

/// Nothing from a server that has not finished reading the project is the wait, and nothing
/// from one that has is the answer; a starting server that does have an answer answers.
#[test]
fn nothing_from_a_server_still_reading_the_project_is_the_wait_and_not_an_answer() {
    let indexing = what_a_modifier_click_comes_to(LspStatus::Starting, Vec::new());
    assert!(
        matches!(&indexing, Definition::StillStarting(said) if said.contains("still indexing")),
        "a starting server with nothing to say is the wait, saw {}",
        match &indexing {
            Definition::Places { places, .. } => format!("{} places", places.len()),
            Definition::StillStarting(said) => said.clone(),
            Definition::NoServer(word) => format!("no server for {}", word.text),
        }
    );

    let ready = what_a_modifier_click_comes_to(LspStatus::Ready, Vec::new());
    assert!(
        matches!(&ready, Definition::Places { places, .. } if places.is_empty()),
        "a ready server with nothing to say means the name is defined nowhere"
    );

    let answered_early = what_a_modifier_click_comes_to(
        LspStatus::Starting,
        vec![LspLocation { file_path: "src/lib.rs".to_string(), line_number: 12 }],
    );
    assert!(
        matches!(&answered_early, Definition::Places { places, .. } if places.len() == 1),
        "a server that is still starting is asked anyway, and its answer is the answer"
    );
}

/// A file nothing serves has nobody to ask, and the click says so rather than going quiet.
#[test]
fn a_modifier_click_in_a_file_nothing_serves_says_there_is_no_server() {
    let answer = what_a_modifier_click_comes_to(LspStatus::Unavailable, Vec::new());
    assert!(matches!(&answer, Definition::NoServer(word) if word.text == "fn" || word.text == "greet"));
}

/// The answer to an older click, replaced by a newer one, is thrown away.
#[test]
fn the_answer_to_a_click_since_replaced_is_thrown_away() {
    let mut state = editor_on(LspStatus::Ready, "fn greet() {}\n");
    let first = greet();
    let second = Word { text: "fn".to_string(), at: TextPoint { offset: 0, line: 0, column: 0 } };
    state.look_up(first.clone());
    state.look_up(second);
    state.hear(Heard::Definition { word: first, places: Some(Vec::new()) }, None, NOW);
    assert!(state.take_landed(None).is_none());
}

/// The document half of a frame, over and over: whatever the file owes goes to a source that
/// fails the first `failing` attempts to tell it the text, and whatever came back is written
/// back, for `frames` frames a tenth of a second apart. What the source was asked is returned.
fn kept_up(served: &mut Served, status: LspStatus, text: &str, mut failing: usize, frames: u64) -> Vec<String> {
    let mut asked = Vec::new();
    for frame in 0..frames {
        let now = NOW + frame * 100_000_000;
        if let Some(ask) = served.owed(text, now).ask {
            match ask {
                egui_moon_code_ide::DocumentAsk::WhetherServed => {
                    asked.push("status notes".to_string());
                    served.served_answered(status, now);
                }
                egui_moon_code_ide::DocumentAsk::WhetherStillStarting => {
                    asked.push("status".to_string());
                    served.starting_answered(status);
                }
                egui_moon_code_ide::DocumentAsk::Send { text, opening } => {
                    asked.push(if opening { "open".to_string() } else { "change".to_string() });
                    if failing > 0 {
                        failing -= 1;
                        served.could_not_be_told(now);
                    } else {
                        served.heard(text);
                    }
                }
            }
        }
    }
    asked
}

/// A failed open does not cost the file its server: the text is offered once more later, and
/// the second time it lands.
#[test]
fn a_file_whose_first_open_failed_is_told_again_later_and_the_server_hears_it() {
    let mut served = Served::default();
    let text = "fn one() {}";
    let asked = kept_up(&mut served, LspStatus::Ready, text, 1, 40);
    assert_eq!(served.can_answer_about(text), CanAnswer::Yes, "asked {:?}", asked);
    let opens = asked.iter().filter(|asked| asked.starts_with("open")).count();
    assert_eq!(opens, 2, "asked {:?}", asked);
    assert!(served.has_a_server());
    assert!(served.was_opened());
    // And not a call a frame while it was failing.
    assert!(TELLING_AGAIN_IN > 100_000_000);
}

/// A file nothing serves is asked about once, and then never spoken of again.
#[test]
fn a_file_nothing_serves_settles_quietly_and_stops_asking_about_itself() {
    let mut served = Served::default();
    let asked = kept_up(&mut served, LspStatus::Unavailable, "# notes", 0, 200);
    assert!(served.nothing_serves_it(), "the answer that nothing serves the file never landed");
    for frame in 0..200 {
        assert_eq!(served.owed("# notes", NOW + frame), DocumentOwed::default());
    }
    assert_eq!(asked, ["status notes"]);
}

fn report(word: Option<&str>, column: usize) -> EditorReport {
    EditorReport {
        word_being_typed: word.map(|text| Word {
            text: text.to_string(),
            at: TextPoint { offset: 0, line: 0, column: 0 },
        }),
        caret: Some(TextPoint { offset: column, line: 0, column }),
        completion_taken: false,
        completion_dismissed: false,
        focused: true,
    }
}

/// A ready server is asked once what opens a list, a word is asked about once the typing has
/// stopped, and the answer lands as the rows on offer.
#[test]
fn a_ready_file_asks_what_opens_a_list_once_and_then_about_the_word() {
    let mut state = editor_on(LspStatus::Ready, "gre");
    let owing = state.follow_the_caret(&report(Some("gre"), 3), Some('e'), "gre", NOW);
    assert!(matches!(owing.asks.as_slice(), [Ask::Triggers]));
    assert_eq!(owing.draw_again_in, Some(TYPING_SETTLES_IN));
    state.hear(Heard::Triggers(vec!['.']), None, NOW);

    let owing = state.follow_the_caret(&report(Some("gre"), 3), Some('e'), "gre", NOW + TYPING_SETTLES_IN);
    let [Ask::Completion(asked)] = owing.asks.as_slice() else {
        panic!("the word was worth a question");
    };
    let rows = vec![LspCompletion {
        label: "greet".to_string(),
        detail: None,
        insert: "greet".to_string(),
        kind: Some(LspCompletionKind::Function),
    }];
    state.hear(Heard::Completion { asked: asked.clone(), rows: Some(rows) }, None, NOW);
    assert_eq!(state.completing.on_offer()[0].insert, "greet()");
}

/// A file nothing serves never asks anything about the caret.
#[test]
fn a_file_nothing_serves_asks_nothing_about_the_caret() {
    let mut state = editor_on(LspStatus::Unavailable, "gre");
    let owing = state.follow_the_caret(&report(Some("gre"), 3), Some('e'), "gre", NOW + TYPING_SETTLES_IN);
    assert!(owing.asks.is_empty());
    assert_eq!(owing.draw_again_in, None);
}

/// Opening another file forgets everything about the one that was left.
#[test]
fn opening_another_file_starts_over() {
    let mut state = editor_on(LspStatus::Ready, "fn greet() {}\n");
    state.look_up(greet());
    state.open(None);
    assert_eq!(state.status(), LspStatus::Unavailable);
    assert!(state.looking_up.is_none());
    let owing = state.keep_the_document_up("other", NOW);
    assert!(matches!(owing.asks.as_slice(), [Ask::Status(StatusAbout::WhetherServed)]));
}
