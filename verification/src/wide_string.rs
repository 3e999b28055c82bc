//! Conversion of Rust strings to the null-terminated UTF-16 form that the
//! wide-character OS entry points expect.

use vstd::prelude::*;

verus! {

/// The UTF-16 code units of a single Unicode scalar value: one unit for a
/// character of the basic plane, a surrogate pair for any other.
pub open spec fn utf16_units_of_char(c: char) -> Seq<u16> {
    let v = c as u32;
    if v < 0x10000 {
        seq![v as u16]
    } else {
        seq![
            (0xD800 + ((v - 0x10000) / 0x400)) as u16,
            (0xDC00 + ((v - 0x10000) % 0x400)) as u16,
        ]
    }
}

/// The UTF-16 encoding of a character sequence, without a terminator.
pub open spec fn utf16_encode(s: Seq<char>) -> Seq<u16>
    decreases s.len(),
{
    if s.len() == 0 {
        Seq::empty()
    } else {
        utf16_units_of_char(s[0]) + utf16_encode(s.drop_first())
    }
}

/// Extending the input by one character appends that character's code units.
proof fn lemma_utf16_encode_snoc(s: Seq<char>, i: int)
    requires
        0 <= i < s.len(),
    ensures
        utf16_encode(s.take(i + 1)) == utf16_encode(s.take(i)) + utf16_units_of_char(s[i]),
    decreases i,
{
    let a = s.take(i + 1);
    if i == 0 {
        assert(a.drop_first() =~= Seq::<char>::empty());
        assert(s.take(0) =~= Seq::<char>::empty());
        assert(utf16_encode(s.take(1)) =~= utf16_units_of_char(s[0]));
        assert(utf16_encode(s.take(0)) + utf16_units_of_char(s[0]) =~= utf16_units_of_char(
            s[0],
        ));
    } else {
        let t = s.drop_first();
        lemma_utf16_encode_snoc(t, i - 1);
        assert(a.drop_first() =~= t.take(i));
        assert(s.take(i).drop_first() =~= t.take(i - 1));
        assert(utf16_encode(s.take(i + 1)) == utf16_units_of_char(s[0]) + utf16_encode(t.take(
            i,
        )));
        assert(utf16_encode(s.take(i)) == utf16_units_of_char(s[0]) + utf16_encode(t.take(i - 1)));
        assert(utf16_encode(s.take(i)) + utf16_units_of_char(s[i]) =~= utf16_units_of_char(s[0])
            + (utf16_encode(t.take(i - 1)) + utf16_units_of_char(t[i - 1])));
    }
}

/// Encodes a string as UTF-16 and appends the null terminator, as the
/// wide-character OS entry points require.
pub fn to_utf16(s: &str) -> (r: Vec<u16>)
    ensures
        r@ == utf16_encode(s@).push(0u16),
{
    let mut out: Vec<u16> = Vec::new();
    for c in it: s.chars()
        invariant
            it.seq() == s@,
            out@ == utf16_encode(s@.take(it.index() as int)),
    {
        proof {
            vstd::utf8::char_is_scalar(c);
        }
        let v = c as u32;
        if v < 0x10000 {
            out.push(v as u16);
        } else {
            let off = v - 0x10000;
            let high = 0xD800 + (off / 0x400);
            let low = 0xDC00 + (off % 0x400);
            out.push(high as u16);
            out.push(low as u16);
        }
        proof {
            lemma_utf16_encode_snoc(s@, it.index() as int);
            assert(out@ =~= utf16_encode(s@.take(it.index() + 1)));
        }
    }
    proof {
        assert(s@.take(s@.len() as int) =~= s@);
    }
    out.push(0u16);
    out
}

} // verus!
