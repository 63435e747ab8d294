//! Helpers for bytes and text.

use vstd::prelude::*;
use vstd::utf8::{decode_utf8, valid_utf8};

verus! {

/// Byte `i` of `x`, the lowest first.
pub open spec fn le_byte(x: u64, i: int) -> u8 {
    ((x >> ((8 * i) as u64)) & 0xff) as u8
}

/// `s` without the characters equal to `c` at its start.
pub open spec fn trim_start(s: Seq<char>, c: char) -> Seq<char>
    decreases s.len(),
{
    if s.len() > 0 && s.first() == c {
        trim_start(s.drop_first(), c)
    } else {
        s
    }
}

/// `s` without the characters equal to `c` at its end.
pub open spec fn trim_end(s: Seq<char>, c: char) -> Seq<char>
    decreases s.len(),
{
    if s.len() > 0 && s.last() == c {
        trim_end(s.drop_last(), c)
    } else {
        s
    }
}

/// `s` without the characters equal to `c` at either end.
pub open spec fn trim(s: Seq<char>, c: char) -> Seq<char> {
    trim_end(trim_start(s, c), c)
}

/// `core::str::from_utf8`: the bytes as text where they are valid UTF-8,
/// and nothing where they are not.
#[verifier::external_body]
fn from_utf8(s: &[u8]) -> (text: Option<&str>)
    ensures
        text is Some == valid_utf8(s@),
        text is Some ==> text->0@ == decode_utf8(s@),
{
    core::str::from_utf8(s).ok()
}

/// `str::trim_matches` with the NUL character as its pattern: the text
/// without the NUL characters at its start and at its end.
#[verifier::external_body]
fn trim_nul(s: &str) -> (t: &str)
    ensures
        t@ == trim(s@, '\0'),
{
    s.trim_matches('\0')
}

/// The text that `s` holds, without the padding of NUL characters round it.
pub fn ascii_strip(s: &[u8]) -> (text: &str)
    requires
        valid_utf8(s@),
    ensures
        text@ == trim(decode_utf8(s@), '\0'),
{
    trim_nul(from_utf8(s).unwrap())
}

} // verus!
