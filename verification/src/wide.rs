//! UTF-16 text as the operating system's wide-string calls take it.

use vstd::prelude::*;

verus! {

/// The UTF-16 code units of one character: itself below U+10000, a
/// surrogate pair from there on.
pub open spec fn units_of(c: char) -> Seq<u16> {
    let v = c as int;
    if v < 0x10000 {
        seq![v as u16]
    } else {
        seq![(0xD800 + (v - 0x10000) / 0x400) as u16, (0xDC00 + (v - 0x10000) % 0x400) as u16]
    }
}

/// The UTF-16 code units of a text, character by character.
pub open spec fn utf16(text: Seq<char>) -> Seq<u16>
    decreases text.len(),
{
    if text.len() == 0 {
        seq![]
    } else {
        utf16(text.drop_last()) + units_of(text.last())
    }
}

/// A text as the wide-string calls take it: its UTF-16 code units and a
/// terminating zero.
pub open spec fn wide(text: Seq<char>) -> Seq<u16> {
    utf16(text).push(0u16)
}

/// Encodes `text` as a zero-terminated UTF-16 string.
pub fn to_wide(text: &str) -> (out: Vec<u16>)
    ensures
        out@ == wide(text@),
{
    let mut out: Vec<u16> = Vec::new();
    let n = text.unicode_len();
    let mut i: usize = 0;
    while i < n
        invariant
            i <= n,
            n == text@.len(),
            out@ == utf16(text@.subrange(0, i as int)),
        decreases n - i,
    {
        let c = text.get_char(i);
        let v: u32 = c as u32;
        proof {
            let upto = text@.subrange(0, i + 1);
            assert(upto.drop_last() =~= text@.subrange(0, i as int));
            assert(upto.last() == c);
        }
        if v < 0x10000 {
            out.push(v as u16);
        } else {
            let w: u32 = v - 0x10000;
            out.push((0xD800 + w / 0x400) as u16);
            out.push((0xDC00 + w % 0x400) as u16);
        }
        assert(out@ =~= utf16(text@.subrange(0, i as int)) + units_of(c));
        i += 1;
    }
    assert(text@.subrange(0, n as int) =~= text@);
    out.push(0u16);
    out
}

} // verus!
