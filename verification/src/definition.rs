//! Modifier-click a name and land on where it is defined.
//!
//! What is here is the small part of that which is nobody's policy but the protocol's: whether
//! the server behind the file is worth a question, and how to read the answer - because a
//! server that has not finished reading the project answers everything with nothing at all,
//! and nothing reads exactly like "this name is defined nowhere".
//!
//! A server that is still starting is asked anyway: a click that did nothing for the minute a
//! cold index takes is a feature nobody would believe in. What the wait changes is only how an
//! empty answer reads, and keeping hold of that is what [`AsksAbout`] is for.

use vstd::prelude::*;

use crate::source::LspStatus;
use crate::text::push_text;

verus! {

/// What a modifier-click does about the server behind the file it was made in.
#[derive(Clone, Copy, PartialEq, Eq, Debug, Structural)]
pub enum AsksAbout {
    /// Nothing here serves this file, so there is no question to put and nothing to wait for.
    Nobody,
    /// Ask it, and take an empty answer for what it says: that the name is defined nowhere
    /// this server can see.
    Server,
    /// Ask it as well, though it has not finished reading the project. An empty answer from
    /// it reads "not yet", never "nowhere".
    ServerThatIsStillStarting,
}

impl AsksAbout {
    /// Whether there is a server to put the question to at all.
    pub fn asks(self) -> (asks: bool)
        ensures
            asks == (self != AsksAbout::Nobody),
    {
        self != AsksAbout::Nobody
    }

    /// Whether an empty answer to this question is only the wait showing through rather than
    /// the name being defined nowhere.
    pub fn an_empty_answer_is_only_the_wait(self) -> (waiting: bool)
        ensures
            waiting == (self == AsksAbout::ServerThatIsStillStarting),
    {
        self == AsksAbout::ServerThatIsStillStarting
    }
}

/// Which of the three a file's status comes to.
pub open spec fn asking_about(status: LspStatus) -> AsksAbout {
    match status {
        LspStatus::Unavailable => AsksAbout::Nobody,
        LspStatus::Starting => AsksAbout::ServerThatIsStillStarting,
        LspStatus::Ready => AsksAbout::Server,
    }
}

/// Which of the three a file's status comes to.
pub fn asks_about(status: LspStatus) -> (asks: AsksAbout)
    ensures
        asks == asking_about(status),
{
    match status {
        LspStatus::Unavailable => AsksAbout::Nobody,
        LspStatus::Starting => AsksAbout::ServerThatIsStillStarting,
        LspStatus::Ready => AsksAbout::Server,
    }
}

/// What to say when a click was answered with nothing by a server that had not finished
/// reading the project, naming the server that serves the file where one does.
///
/// The name comes from the one table that says which server serves which file, so the sentence
/// and the process it is about cannot disagree. A file nothing in that table serves can only be
/// named as what it is.
pub fn still_starting(server: Option<&str>) -> (said: String)
    ensures
        said@ == match server {
            Some(server) => server@ + " is still indexing this project - try again in a moment"@,
            None => "the language server is still starting - try again in a moment"@,
        },
{
    match server {
        Some(server) => {
            let mut said = server.to_owned();
            push_text(&mut said, " is still indexing this project - try again in a moment");
            said
        },
        None => "the language server is still starting - try again in a moment".to_owned(),
    }
}

} // verus!
