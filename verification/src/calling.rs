//! Taking a function from the list and getting a call: `greet` goes in as `greet()`, with the
//! caret between the parentheses so an argument can be typed straight away.
//!
//! The widget puts what it is handed into the buffer and never learns what a function is; the
//! server carries the kind it sent and reads nothing into it. Here, where a server's answer is
//! turned into the widget's rows, is the one place that knows both.
//!
//! Nothing is guessed at. A row with no kind gets a plain insertion: parentheses written after
//! something that is not called are a character to delete.

use vstd::prelude::*;
use vstd::string::StringSliceAdditionalSpecFns;

use crate::source::{LspCompletion, LspCompletionKind, LspCompletionView};
use crate::text::{chars_of, holds, push_char};
use crate::widget::{Completion, CompletionView};

verus! {

/// Whether each sort of thing a server can offer is written with parentheses after its name.
///
/// A row per kind rather than a match on the three that are called, so that the business of
/// it - a language question people will want to argue about - is laid out to be read and
/// changed in one place. The three that are called are the three a name is followed by an
/// argument list for; a `Struct` is the type's name, written bare far more often than called.
pub const TAKES_PARENTHESES: [(LspCompletionKind, bool); 25] = [
    (LspCompletionKind::Function, true),
    (LspCompletionKind::Method, true),
    (LspCompletionKind::Constructor, true),
    (LspCompletionKind::Text, false),
    (LspCompletionKind::Field, false),
    (LspCompletionKind::Variable, false),
    (LspCompletionKind::Class, false),
    (LspCompletionKind::Interface, false),
    (LspCompletionKind::Module, false),
    (LspCompletionKind::Property, false),
    (LspCompletionKind::Unit, false),
    (LspCompletionKind::Value, false),
    (LspCompletionKind::Enum, false),
    (LspCompletionKind::Keyword, false),
    (LspCompletionKind::Snippet, false),
    (LspCompletionKind::Color, false),
    (LspCompletionKind::File, false),
    (LspCompletionKind::Reference, false),
    (LspCompletionKind::Folder, false),
    (LspCompletionKind::EnumMember, false),
    (LspCompletionKind::Constant, false),
    (LspCompletionKind::Struct, false),
    (LspCompletionKind::Event, false),
    (LspCompletionKind::Operator, false),
    (LspCompletionKind::TypeParameter, false),
];

/// What the table says of `kind`: the answer of the first row that names it, and not called
/// where no row does.
pub open spec fn called_by_table(kind: LspCompletionKind) -> bool {
    exists|i: int|
        0 <= i < TAKES_PARENTHESES@.len() && TAKES_PARENTHESES@[i].0 == kind
            && TAKES_PARENTHESES@[i].1 && forall|j: int|
            0 <= j < i ==> TAKES_PARENTHESES@[j].0 != kind
}

/// Whether taking a row of this kind writes the parentheses of a call after it. A row whose
/// kind the server did not say is not called.
pub open spec fn is_called(kind: Option<LspCompletionKind>) -> bool {
    match kind {
        Some(kind) => called_by_table(kind),
        None => false,
    }
}

/// Whether taking this sort of thing should write the parentheses of a call after it.
///
/// `None` - a server that said nothing about what it offered - is not called, and neither is a
/// kind the table has no row for. Both are the same silence.
pub fn takes_parentheses(kind: Option<LspCompletionKind>) -> (takes: bool)
    ensures
        takes == is_called(kind),
{
    let wanted = match kind {
        Some(wanted) => wanted,
        None => {
            return false;
        },
    };
    let table = TAKES_PARENTHESES;
    let mut i: usize = 0;
    while i < 25
        invariant
            i <= 25,
            kind == Some(wanted),
            table@ == TAKES_PARENTHESES@,
            forall|j: int| 0 <= j < i ==> TAKES_PARENTHESES@[j].0 != wanted,
        decreases 25 - i,
    {
        let (named, called) = table[i];
        if named == wanted {
            proof {
                assert(TAKES_PARENTHESES@[i as int] == (named, called));
                if called {
                    assert(called_by_table(wanted));
                } else {
                    assert forall|k: int|
                        0 <= k < TAKES_PARENTHESES@.len() && TAKES_PARENTHESES@[k].0 == wanted
                            && #[trigger] TAKES_PARENTHESES@[k].1 implies exists|j: int|
                        0 <= j < k && TAKES_PARENTHESES@[j].0 == wanted by {
                        if k > i {
                            assert(TAKES_PARENTHESES@[i as int].0 == wanted);
                        }
                    }
                }
            }
            return called;
        }
        i = i + 1;
    }
    false
}

/// Whether a row puts a call in: a called kind, an insertion with no parenthesis of the
/// server's own in it, and a caret not already in front of one.
pub open spec fn writes_a_call(item: LspCompletionView, follows_the_caret: Option<char>) -> bool {
    &&& is_called(item.kind)
    &&& !item.insert.contains('(')
    &&& follows_the_caret != Some('(')
}

/// A server's row as the widget's row: the parentheses of a call after a call, with the caret
/// left one byte back between them, and everything else exactly as the server sent it.
pub open spec fn row_of(item: LspCompletionView, follows_the_caret: Option<char>) -> CompletionView {
    if writes_a_call(item, follows_the_caret) {
        CompletionView {
            label: item.label,
            detail: item.detail,
            insert: item.insert.push('(').push(')'),
            caret_back: 1,
        }
    } else {
        CompletionView {
            label: item.label,
            detail: item.detail,
            insert: item.insert,
            caret_back: 0,
        }
    }
}

/// The character at the start of the text from `column` on, which is the character a caret at
/// that column sits in front of: nothing at the end of the line, and nothing for a column that
/// is past the end or inside a character.
pub open spec fn character_at(line: Seq<u8>, column: int) -> Option<char> {
    if vstd::utf8::is_char_boundary(line, column) && column < line.len() {
        Some(vstd::utf8::decode_utf8(line.subrange(column, line.len() as int))[0])
    } else {
        None
    }
}

/// The character the caret is sitting in front of, given the line it is on - `None` for a line
/// the text does not have - and the column in bytes into that line.
///
/// The one thing the parentheses need of the buffer: completing over a call that is already
/// there - `gre|(x)` taking `greet` - must not write a second pair.
pub fn follows_the_caret(line: Option<&str>, column: usize) -> (follows: Option<char>)
    ensures
        follows == match line {
            Some(line) => character_at(line.spec_bytes(), column as int),
            None => None,
        },
{
    let line = match line {
        Some(line) => line,
        None => {
            return None;
        },
    };
    proof {
        vstd::utf8::encode_utf8_valid_utf8(line@);
    }
    if !line.is_char_boundary(column) {
        return None;
    }
    let (_, rest) = line.split_at(column);
    proof {
        vstd::utf8::encode_utf8_decode_utf8(rest@);
    }
    let chars = chars_of(rest);
    if chars.len() == 0 {
        proof {
            vstd::utf8::encode_utf8_valid_utf8(rest@);
        }
        return None;
    }
    Some(chars[0])
}

/// One of the server's rows as the widget's row, with the parentheses of a call where it is a
/// call and the caret asked for between them.
///
/// Three things each stop the parentheses on their own: a kind that is not called, an
/// insertion the server already wrote a parenthesis into, and a caret already sitting in front
/// of one.
pub fn row_for(item: LspCompletion, follows_the_caret: Option<char>) -> (row: Completion)
    ensures
        row@ == row_of(item@, follows_the_caret),
{
    let writes_a_call = takes_parentheses(item.kind) && !holds(item.insert.as_str(), '(')
        && follows_the_caret != Some('(');
    if writes_a_call {
        let mut insert = item.insert;
        push_char(&mut insert, '(');
        push_char(&mut insert, ')');
        Completion { label: item.label, detail: item.detail, insert, caret_back: 1 }
    } else {
        Completion { label: item.label, detail: item.detail, insert: item.insert, caret_back: 0 }
    }
}

/// Taking a row reads and notes exactly what the server sent, and puts in what the server sent
/// with, at most, the two characters of an empty argument list after it - which is there
/// exactly when the row writes a call, with the caret between them.
pub proof fn a_row_is_what_the_server_sent_or_a_call_of_it(
    item: LspCompletionView,
    follows_the_caret: Option<char>,
)
    ensures
        row_of(item, follows_the_caret).label == item.label,
        row_of(item, follows_the_caret).detail == item.detail,
        writes_a_call(item, follows_the_caret) ==> row_of(item, follows_the_caret).insert
            == item.insert + seq!['(', ')'] && row_of(item, follows_the_caret).caret_back == 1,
        !writes_a_call(item, follows_the_caret) ==> row_of(item, follows_the_caret).insert
            == item.insert && row_of(item, follows_the_caret).caret_back == 0,
        item.kind is None ==> !writes_a_call(item, follows_the_caret),
{
    assert(item.insert.push('(').push(')') =~= item.insert + seq!['(', ')']);
}

} // verus!
