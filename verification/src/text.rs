//! Editing of text by character positions.
//!
//! A position counts characters, not bytes: position 0 is before the first
//! character, and the number of characters is the position after the last.

use vstd::prelude::*;

verus! {

/// `String::push` of the standard library. Taken on trust: that it puts
/// `ch` behind the last character of `s` and changes nothing else, as its
/// documentation says.
pub assume_specification[ String::push ](s: &mut String, ch: char)
    ensures
        final(s)@ == old(s)@.push(ch),
;

/// The characters of `text` from position `from` up to position `to`.
pub(crate) fn slice(text: &str, from: usize, to: usize) -> (r: String)
    requires
        from <= to <= text@.len(),
    ensures
        r@ == text@.subrange(from as int, to as int),
{
    String::from_str(text.substring_char(from, to))
}

/// `text` with `ch` put in at position `at`.
pub(crate) fn with_char_inserted(text: &str, at: usize, ch: char) -> (r: String)
    requires
        at <= text@.len(),
    ensures
        r@ == text@.insert(at as int, ch),
{
    let len = text.unicode_len();
    let mut r = slice(text, 0, at);
    r.push(ch);
    r.append(text.substring_char(at, len));
    r
}

/// `text` without the character at position `at`.
pub(crate) fn with_char_removed(text: &str, at: usize) -> (r: String)
    requires
        at < text@.len(),
    ensures
        r@ == text@.remove(at as int),
{
    let len = text.unicode_len();
    let mut r = slice(text, 0, at);
    r.append(text.substring_char(at + 1, len));
    r
}

} // verus!
