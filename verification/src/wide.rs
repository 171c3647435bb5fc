use vstd::prelude::*;

verus! {

broadcast use vstd::string::group_string_axioms;

/// The UTF-16 code units of one character.
pub open spec fn utf16_of_char(c: char) -> Seq<u16> {
    let v = c as u32;
    if v < 0x10000 {
        seq![v as u16]
    } else {
        let w = v - 0x10000;
        seq![(0xD800 + w / 0x400) as u16, (0xDC00 + w % 0x400) as u16]
    }
}

/// The UTF-16 encoding of a text.
pub open spec fn utf16(s: Seq<char>) -> Seq<u16>
    decreases s.len(),
{
    if s.len() == 0 {
        seq![]
    } else {
        utf16(s.drop_last()) + utf16_of_char(s.last())
    }
}

/// Encodes `value` as UTF-16 followed by a terminating zero, as the Windows
/// wide-string functions take it.
pub fn to_wide(value: &str) -> (wide: Vec<u16>)
    ensures
        wide@ == utf16(value@).push(0),
{
    let mut out: Vec<u16> = Vec::new();
    let ghost text = value@;
    for c in it: value.chars()
        invariant
            it.seq() == text,
            out@ == utf16(text.take(it.index() as int)),
    {
        let ghost i = it.index() as int;
        assert(c == text[i]);
        let v: u32 = c as u32;
        proof {
            vstd::utf8::char_is_scalar(c);
        }
        if v < 0x10000 {
            out.push(v as u16);
        } else {
            let w: u32 = v - 0x10000;
            out.push((0xD800 + w / 0x400) as u16);
            out.push((0xDC00 + w % 0x400) as u16);
        }
        assert(text.take(i + 1).drop_last() == text.take(i));
        assert(out@ == utf16(text.take(i)) + utf16_of_char(c));
    }
    assert(text.take(text.len() as int) == text);
    out.push(0);
    out
}

} // verus!
