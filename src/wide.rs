//! Encoding of paths as null-terminated UTF-16, the form the wide-character
//! Windows API expects.
use vstd::prelude::*;

verus! {

/// The UTF-16 code units of one character: one unit inside the basic
/// multilingual plane, a high and a low surrogate beyond it.
pub open spec fn utf16_char(c: char) -> Seq<u16> {
    let v = c as u32;
    if v < 0x10000 {
        seq![v as u16]
    } else {
        let w = (v - 0x10000) as u32;
        seq![(0xD800 + (w >> 10)) as u16, (0xDC00 + (w & 0x3FF)) as u16]
    }
}

/// The UTF-16 encoding of a character sequence, character by character.
pub open spec fn utf16_of(s: Seq<char>) -> Seq<u16>
    decreases s.len(),
{
    if s.len() == 0 {
        Seq::empty()
    } else {
        utf16_of(s.drop_last()) + utf16_char(s.last())
    }
}

/// A path as the wide-character API takes it: its UTF-16 encoding followed by
/// a terminating zero unit.
pub open spec fn wide_path(s: Seq<char>) -> Seq<u16> {
    utf16_of(s).push(0u16)
}

/// Appends the UTF-16 code units of `c` to `out`.
fn push_utf16(out: &mut Vec<u16>, c: char)
    ensures
        final(out)@ == old(out)@ + utf16_char(c),
{
    let v = c as u32;
    if v < 0x10000 {
        out.push(v as u16);
    } else {
        let w: u32 = v - 0x10000;
        assert(w <= 0xFFFFF ==> w >> 10 < 0x400) by (bit_vector);
        assert(w & 0x3FF <= 0x3FF) by (bit_vector);
        out.push((0xD800 + (w >> 10)) as u16);
        out.push((0xDC00 + (w & 0x3FF)) as u16);
    }
    assert(final(out)@ =~= old(out)@ + utf16_char(c));
}

/// Encodes `s` as a null-terminated wide string.
pub fn to_utf16(s: &str) -> (r: Vec<u16>)
    ensures
        r@ == wide_path(s@),
{
    broadcast use vstd::string::axiom_spec_iter;
    let mut out: Vec<u16> = Vec::new();
    for c in it: s.chars()
        invariant
            it.seq() == s@,
            out@ == utf16_of(s@.take(it.index() as int)),
    {
        proof {
            let k = it.index() as int;
            assert(s@.take(k + 1).drop_last() =~= s@.take(k));
        }
        push_utf16(&mut out, c);
    }
    assert(s@.take(s@.len() as int) =~= s@);
    out.push(0u16);
    out
}

} // verus!
