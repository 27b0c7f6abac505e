//! Small operations on text that the parsing and rendering code shares.

use vstd::prelude::*;

verus! {

/// Whether `needle` stands in `text` at position `at`.
pub open spec fn occurs_at(text: Seq<char>, needle: Seq<char>, at: int) -> bool {
    &&& 0 <= at
    &&& at + needle.len() <= text.len()
    &&& text.subrange(at, at + needle.len()) == needle
}

/// Whether `needle` stands somewhere in `text`.
pub open spec fn has_substring(text: Seq<char>, needle: Seq<char>) -> bool {
    exists|at: int| occurs_at(text, needle, at)
}

/// `text` without the white space that it begins and ends with, where white
/// space is what has the Unicode property White_Space.
pub uninterp spec fn trimmed(text: Seq<char>) -> Seq<char>;

/// The character sequences of a sequence of strings.
pub open spec fn texts(strings: Seq<String>) -> Seq<Seq<char>> {
    strings.map_values(|s: String| s@)
}

/// The characters of an optional string.
pub open spec fn option_text(text: Option<String>) -> Option<Seq<char>> {
    match text {
        Some(t) => Some(t@),
        None => None,
    }
}

/// The first item of a sequence, if it has one.
pub open spec fn first_of<T>(items: Seq<T>) -> Option<T> {
    if items.len() > 0 {
        Some(items[0])
    } else {
        None
    }
}

/// Whether two string slices hold the same characters.
pub fn same_text(a: &str, b: &str) -> (res: bool)
    ensures
        res == (a@ == b@),
{
    a.to_owned() == b.to_owned()
}

/// `str::contains` with a string pattern: true exactly when the pattern occurs
/// somewhere in the text as a contiguous run of characters.
#[verifier::external_body]
pub(crate) fn contains_text(text: &str, needle: &str) -> (res: bool)
    ensures
        res == has_substring(text@, needle@),
{
    text.contains(needle)
}

/// `str::trim`: the result is named `trimmed` of the text, a fixed function of
/// its characters. Which characters count as white space is a table of
/// Unicode's that std follows; it is not written out here.
#[verifier::external_body]
pub(crate) fn trim_text(text: &str) -> (res: String)
    ensures
        res@ == trimmed(text@),
{
    text.trim().to_owned()
}

} // verus!
