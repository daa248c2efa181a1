use egui_moon_code_ide::{asks_about, still_starting, AsksAbout, LspStatus};

/// A file nothing serves has nobody to ask. A server is asked whether it has finished reading
/// the project or not, and what the waiting changes is only how an empty answer reads.
#[test]
fn a_server_is_asked_even_while_it_is_still_reading_the_project() {
    assert_eq!(asks_about(LspStatus::Unavailable), AsksAbout::Nobody);
    assert_eq!(asks_about(LspStatus::Ready), AsksAbout::Server);
    assert_eq!(asks_about(LspStatus::Starting), AsksAbout::ServerThatIsStillStarting);

    assert!(!asks_about(LspStatus::Unavailable).asks());
    assert!(asks_about(LspStatus::Ready).asks());
    assert!(asks_about(LspStatus::Starting).asks());

    assert!(
        !asks_about(LspStatus::Ready).an_empty_answer_is_only_the_wait(),
        "a ready server answering with nothing means there is nothing"
    );
    assert!(
        asks_about(LspStatus::Starting).an_empty_answer_is_only_the_wait(),
        "a starting server answering with nothing means it has not read the project yet"
    );
}

/// A click answered with nothing while the server is indexing says so, and says which server.
/// The server's name is what the table of languages gives for the file: `rust` for
/// `src/lib.rs`, `typescript` for `web/app.tsx`, and none for `README.md`.
#[test]
fn a_click_answered_while_the_server_is_indexing_names_the_language_that_is_busy() {
    assert!(still_starting(Some("rust")).starts_with("rust is still indexing"));
    assert!(still_starting(Some("typescript")).starts_with("typescript is still indexing"));
    assert!(still_starting(None).starts_with("the language server"));
}

/// The whole sentence, for a server and for none.
#[test]
fn the_sentence_for_a_click_during_the_wait_is_whole() {
    assert_eq!(
        still_starting(Some("rust")),
        "rust is still indexing this project - try again in a moment"
    );
    assert_eq!(
        still_starting(None),
        "the language server is still starting - try again in a moment"
    );
}
