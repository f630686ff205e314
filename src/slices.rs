//! Splitting slices, and reading strings byte by byte and line by line.
use vstd::prelude::*;
use vstd::string::StringSliceAdditionalSpecFns;
use crate::search::{lines_in, lines_of};
use crate::text::push_char;

verus! {

/// The two halves of `values` around `mid`, both borrowed mutably.
pub fn split(values: &mut [i32], mid: usize) -> (r: (&mut [i32], &mut [i32]))
    requires
        mid <= old(values)@.len(),
    ensures
        r.0@ == old(values)@.subrange(0, mid as int),
        r.1@ == old(values)@.subrange(mid as int, old(values)@.len() as int),
        final(values)@ == final(r.0)@ + final(r.1)@,
{
    values.split_at_mut(mid)
}

/// The characters whose codes are the bytes of `b`, one for each byte.
pub open spec fn latin_chars(b: Seq<u8>) -> Seq<char> {
    b.map_values(|x: u8| x as char)
}

/// Each byte of `s`'s UTF-8 encoding read as a character of its own.
pub fn bytes_as_chars(s: &str) -> (r: String)
    ensures
        r@ == latin_chars(s.spec_bytes()),
{
    let bytes = s.as_bytes();
    let mut r = String::new();
    let mut i: usize = 0;
    while i < bytes.len()
        invariant
            bytes@ == s.spec_bytes(),
            i <= bytes@.len(),
            r@ == latin_chars(bytes@.take(i as int)),
        decreases bytes@.len() - i,
    {
        push_char(&mut r, bytes[i] as char);
        assert(latin_chars(bytes@.take(i + 1)) =~= latin_chars(bytes@.take(i as int)).push(bytes@[i as int] as char));
        i = i + 1;
    }
    assert(bytes@.take(bytes@.len() as int) =~= bytes@);
    r
}

/// The bytes of "नमस्ते", each read as a character.
pub fn utf_8_values() -> (r: String)
    ensures
        r@ == latin_chars("नमस्ते".spec_bytes()),
{
    bytes_as_chars("नमस्ते")
}

/// The last character of the first line of `text`, if the text has a
/// first line and it is not empty.
pub fn last_char_from_text(text: &str) -> (r: Option<char>)
    ensures
        lines_of(text@).len() == 0 ==> r is None,
        lines_of(text@).len() > 0 && lines_of(text@)[0].len() == 0 ==> r is None,
        lines_of(text@).len() > 0 && lines_of(text@)[0].len() > 0 ==> r == Some(lines_of(text@)[0].last()),
{
    let lines = lines_in(text);
    if lines.len() == 0 {
        return None;
    }
    let first = lines[0];
    let n = first.unicode_len();
    if n == 0 {
        return None;
    }
    Some(first.get_char(n - 1))
}

} // verus!
