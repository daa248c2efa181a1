use egui_moon_code_ide::{
    CanAnswer, Document, DocumentAsk, DocumentOwed, LspStatus, Owed, Served,
    STARTING_IS_ASKED_ABOUT_EVERY, TELLING_AGAIN_IN, TYPING_SETTLES_IN,
};

/// A moment well after the clock's origin, so that moments before it can be written too.
const NOW: u64 = 10_000_000_000;

/// The document is opened the moment there is text to open it with, and nothing more is sent
/// until it has gone through.
#[test]
fn the_document_is_opened_once_and_nothing_is_sent_while_a_call_is_out() {
    let now = NOW;
    let mut document = Document::new(true, now);
    assert_eq!(document.owed("fn one() {}", now), Owed::Open);

    document.sending = true;
    assert_eq!(document.owed("fn one() {}", now), Owed::Nothing);

    // As the open comes back: the server has heard this text, and has heard nothing else
    // until the typing stops again.
    document.sending = false;
    document.opened = true;
    document.sent = "fn one() {}".to_string();
    assert_eq!(document.owed("fn one() {}", now), Owed::Nothing);
}

/// A burst of typing sends the text once at the end of it rather than once a keystroke.
#[test]
fn typing_sends_the_text_once_it_has_stopped_rather_than_once_a_keystroke() {
    let start = NOW;
    let mut document = Document::new(true, start);
    document.opened = true;
    document.sent = "fn one() {}".to_string();
    document.seen = document.sent.clone();
    document.seen_at = start;

    // A keystroke every fiftieth of a second, none of them worth a call.
    let mut typed = String::new();
    for (key, letter) in "// a comment".chars().enumerate() {
        typed.push(letter);
        let at = start + 20_000_000 * key as u64;
        document.saw(&typed, at);
        assert_eq!(document.owed(&typed, at), Owed::Nothing, "at key {key}");
    }

    // Still nothing a moment after the last of them, and the whole text once the pause has
    // run its length.
    let last = start + 20_000_000 * 11;
    assert_eq!(document.owed(&typed, last + TYPING_SETTLES_IN / 2), Owed::Nothing);
    assert_eq!(document.owed(&typed, last + TYPING_SETTLES_IN), Owed::Change);
}

/// The whole sequence a file goes through: ask what serves it, open it, and then have nothing
/// to say until the typing stops.
#[test]
fn a_served_file_is_asked_about_then_opened_and_then_left_alone() {
    let now = NOW;
    let mut served = Served::default();
    assert_eq!(served.owed("fn one() {}", now).ask, Some(DocumentAsk::WhetherServed));
    // The question is out, so it is not asked again on the next frame.
    assert_eq!(served.owed("fn one() {}", now).ask, None);

    served.served_answered(LspStatus::Ready, now);
    let owed = served.owed("fn one() {}", now);
    assert_eq!(
        owed.ask,
        Some(DocumentAsk::Send { text: "fn one() {}".to_string(), opening: true })
    );
    served.heard("fn one() {}".to_string());
    assert_eq!(served.can_answer_about("fn one() {}"), CanAnswer::Yes);
    assert_eq!(served.owed("fn one() {}", now).ask, None);
}

/// A file nothing serves is asked about once and then never spoken of again.
#[test]
fn a_file_nothing_serves_is_asked_about_once_and_then_never_again() {
    let now = NOW;
    let mut served = Served::default();
    assert!(served.owed("# notes", now).ask.is_some());
    served.served_answered(LspStatus::Unavailable, now);

    assert!(served.nothing_serves_it());
    assert!(!served.has_a_server());
    assert_eq!(served.owed("# notes", now), DocumentOwed::default());
    assert_eq!(served.can_answer_about("# notes"), CanAnswer::NotThisText);
}

/// A server that is still reading the project is not the same as one with no answer, and a
/// question is never put to it while it reads.
#[test]
fn a_server_that_is_still_reading_the_project_is_not_asked_anything_about_the_text() {
    let now = NOW;
    let mut served = Served::default();
    served.owed("fn one() {}", now);
    served.served_answered(LspStatus::Starting, now);
    served.owed("fn one() {}", now);
    served.heard("fn one() {}".to_string());

    assert_eq!(served.can_answer_about("fn one() {}"), CanAnswer::StillReadingTheProject);
    assert_eq!(served.status(), LspStatus::Starting);

    // Asked again a second later, and once it says yes the file is answerable.
    let later = now + STARTING_IS_ASKED_ABOUT_EVERY * 2;
    assert_eq!(
        served.owed("fn one() {}", later).ask,
        Some(DocumentAsk::WhetherStillStarting)
    );
    served.starting_answered(LspStatus::Ready);
    assert_eq!(served.can_answer_about("fn one() {}"), CanAnswer::Yes);
    assert_eq!(served.status(), LspStatus::Ready);
}

/// A window nobody is typing in draws no more frames, so the change waiting on the pause has
/// to ask for the frame it will be sent on.
#[test]
fn a_change_waiting_on_the_pause_asks_for_the_frame_it_will_be_sent_on() {
    let now = NOW;
    let mut served = Served::default();
    served.owed("fn one() {}", now);
    served.served_answered(LspStatus::Ready, now);
    served.owed("fn one() {}", now);
    served.heard("fn one() {}".to_string());

    let owed = served.owed("fn one() {} // typed", now);
    assert_eq!(owed.ask, None);
    assert_eq!(owed.draw_again_in, Some(TYPING_SETTLES_IN));
}

/// An open that could not reach the server is offered again after a pause, and not on every
/// frame in between; once it goes through, the file can be answered about.
#[test]
fn an_open_that_failed_is_offered_again_after_a_pause_and_not_before() {
    let now = NOW;
    let mut served = Served::default();
    served.owed("fn one() {}", now);
    served.served_answered(LspStatus::Ready, now);
    assert!(matches!(
        served.owed("fn one() {}", now).ask,
        Some(DocumentAsk::Send { opening: true, .. })
    ));
    served.could_not_be_told(now);

    assert!(served.has_a_server());
    assert_eq!(served.owed("fn one() {}", now + TELLING_AGAIN_IN / 2).ask, None);
    assert_eq!(
        served.owed("fn one() {}", now + TELLING_AGAIN_IN).ask,
        Some(DocumentAsk::Send { text: "fn one() {}".to_string(), opening: true })
    );
    served.heard("fn one() {}".to_string());
    assert!(served.was_opened());
    assert_eq!(served.can_answer_about("fn one() {}"), CanAnswer::Yes);
}

/// What the server heard is what a question can be answered about, and nothing else.
#[test]
fn only_the_text_the_server_heard_can_be_answered_about() {
    let now = NOW;
    let mut served = Served::default();
    assert_eq!(served.can_answer_about(""), CanAnswer::NotThisText);
    served.owed("a", now);
    served.served_answered(LspStatus::Ready, now);
    served.owed("a", now);
    assert_eq!(served.can_answer_about("a"), CanAnswer::NotThisText);
    served.heard("a".to_string());
    assert_eq!(served.can_answer_about("a"), CanAnswer::Yes);
    assert_eq!(served.can_answer_about("ab"), CanAnswer::NotThisText);
}

/// A change is sent once the typing has stopped, and it is a change rather than an open.
#[test]
fn a_change_is_sent_once_the_typing_has_stopped() {
    let now = NOW;
    let mut served = Served::default();
    served.owed("a", now);
    served.served_answered(LspStatus::Ready, now);
    served.owed("a", now);
    served.heard("a".to_string());
    assert_eq!(served.owed("ab", now).ask, None);
    assert_eq!(
        served.owed("ab", now + TYPING_SETTLES_IN).ask,
        Some(DocumentAsk::Send { text: "ab".to_string(), opening: false })
    );
    // The call is out, so nothing more goes until it comes back.
    assert_eq!(served.owed("abc", now + 2 * TYPING_SETTLES_IN).ask, None);
}
