//! Small facts about text: its characters, and whether two pieces of it are the same.

use vstd::prelude::*;

verus! {

/// The characters of `s`, in order.
pub fn chars_of(s: &str) -> (chars: Vec<char>)
    ensures
        chars@ == s@,
{
    let mut chars: Vec<char> = Vec::new();
    for c in it: s.chars()
        invariant
            it.seq() == s@,
            chars@ == it.seq().take(it.index() as int),
    {
        chars.push(c);
    }
    chars
}

/// Whether `a` and `b` hold the same text.
pub fn same_text(a: &String, b: &str) -> (same: bool)
    ensures
        same == (a@ == b@),
{
    let owned = b.to_owned();
    *a == owned
}

/// Whether `s` holds `c` anywhere.
pub fn holds(s: &str, c: char) -> (found: bool)
    ensures
        found == s@.contains(c),
{
    let chars = chars_of(s);
    let mut i: usize = 0;
    while i < chars.len()
        invariant
            i <= chars@.len(),
            chars@ == s@,
            forall|j: int| 0 <= j < i ==> chars@[j] != c,
        decreases chars@.len() - i,
    {
        if chars[i] == c {
            return true;
        }
        i = i + 1;
    }
    false
}

/// Put `c` on the end of `s`.
///
/// Not proved here: this calls std's `String::push`, and its contract claims what std
/// documents of it - that the string afterwards is the one before with `c` appended.
#[verifier::external_body]
pub(crate) fn push_char(s: &mut String, c: char)
    ensures
        final(s)@ == old(s)@.push(c),
{
    s.push(c);
}

/// Put `other` on the end of `s`.
///
/// Not proved here: this calls std's `String::push_str`, and its contract claims what std
/// documents of it - that the string afterwards is the one before with `other` appended.
#[verifier::external_body]
pub(crate) fn push_text(s: &mut String, other: &str)
    ensures
        final(s)@ == old(s)@ + other@,
{
    s.push_str(other);
}

} // verus!
