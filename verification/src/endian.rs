//! Big-endian encodings of fixed-width unsigned integers, as mathematical
//! functions on byte sequences.

use vstd::prelude::*;

verus! {

/// The two bytes of `x`, most significant first.
pub open spec fn be_bytes_u16(x: u16) -> Seq<u8> {
    seq![(x as int / 0x100) as u8, (x as int % 0x100) as u8]
}

/// The four bytes of `x`, most significant first.
pub open spec fn be_bytes_u32(x: u32) -> Seq<u8> {
    seq![
        (x as int / 0x100_0000) as u8,
        (x as int / 0x1_0000 % 0x100) as u8,
        (x as int / 0x100 % 0x100) as u8,
        (x as int % 0x100) as u8,
    ]
}

/// The eight bytes of `x`, most significant first.
pub open spec fn be_bytes_u64(x: u64) -> Seq<u8> {
    seq![
        (x as int / 0x100_0000_0000_0000) as u8,
        (x as int / 0x1_0000_0000_0000 % 0x100) as u8,
        (x as int / 0x100_0000_0000 % 0x100) as u8,
        (x as int / 0x1_0000_0000 % 0x100) as u8,
        (x as int / 0x100_0000 % 0x100) as u8,
        (x as int / 0x1_0000 % 0x100) as u8,
        (x as int / 0x100 % 0x100) as u8,
        (x as int % 0x100) as u8,
    ]
}

/// The number that two bytes spell, most significant first.
pub open spec fn be_value_u16(s: Seq<u8>) -> u16
    recommends
        s.len() == 2,
{
    (s[0] as int * 0x100 + s[1] as int) as u16
}

/// The number that four bytes spell, most significant first.
pub open spec fn be_value_u32(s: Seq<u8>) -> u32
    recommends
        s.len() == 4,
{
    (s[0] as int * 0x100_0000 + s[1] as int * 0x1_0000 + s[2] as int * 0x100 + s[3] as int) as u32
}

/// The number that eight bytes spell, most significant first.
pub open spec fn be_value_u64(s: Seq<u8>) -> u64
    recommends
        s.len() == 8,
{
    (s[0] as int * 0x100_0000_0000_0000 + s[1] as int * 0x1_0000_0000_0000 + s[2] as int
        * 0x100_0000_0000 + s[3] as int * 0x1_0000_0000 + s[4] as int * 0x100_0000 + s[5] as int
        * 0x1_0000 + s[6] as int * 0x100 + s[7] as int) as u64
}

/// Reading back the bytes of a 16-bit number gives the number.
pub proof fn lemma_be_u16_roundtrip(x: u16)
    ensures
        be_bytes_u16(x).len() == 2,
        be_value_u16(be_bytes_u16(x)) == x,
{
}

/// Reading back the bytes of a 32-bit number gives the number.
pub proof fn lemma_be_u32_roundtrip(x: u32)
    ensures
        be_bytes_u32(x).len() == 4,
        be_value_u32(be_bytes_u32(x)) == x,
{
    assert(x == (x / 0x100_0000) * 0x100_0000 + (x / 0x1_0000 % 0x100) * 0x1_0000 + (x / 0x100
        % 0x100) * 0x100 + x % 0x100) by (bit_vector);
}

/// Reading back the bytes of a 64-bit number gives the number.
pub proof fn lemma_be_u64_roundtrip(x: u64)
    ensures
        be_bytes_u64(x).len() == 8,
        be_value_u64(be_bytes_u64(x)) == x,
{
    assert(x == (x / 0x100_0000_0000_0000) * 0x100_0000_0000_0000 + (x / 0x1_0000_0000_0000
        % 0x100) * 0x1_0000_0000_0000 + (x / 0x100_0000_0000 % 0x100) * 0x100_0000_0000 + (x
        / 0x1_0000_0000 % 0x100) * 0x1_0000_0000 + (x / 0x100_0000 % 0x100) * 0x100_0000 + (x
        / 0x1_0000 % 0x100) * 0x1_0000 + (x / 0x100 % 0x100) * 0x100 + x % 0x100) by (bit_vector);
}

/// Spelling a number out again gives the two bytes it was read from.
pub proof fn lemma_be_u16_bytes_of_value(s: Seq<u8>)
    requires
        s.len() == 2,
    ensures
        be_bytes_u16(be_value_u16(s)) == s,
{
    assert(be_bytes_u16(be_value_u16(s)) =~= s);
}

/// Spelling a number out again gives the four bytes it was read from.
pub proof fn lemma_be_u32_bytes_of_value(s: Seq<u8>)
    requires
        s.len() == 4,
    ensures
        be_bytes_u32(be_value_u32(s)) == s,
{
    let a = s[0] as u32;
    let b = s[1] as u32;
    let c = s[2] as u32;
    let d = s[3] as u32;
    let v = be_value_u32(s);
    assert(v == a * 0x100_0000 + b * 0x1_0000 + c * 0x100 + d);
    assert(v / 0x100_0000 == a && v / 0x1_0000 % 0x100 == b && v / 0x100 % 0x100 == c && v % 0x100
        == d) by (bit_vector)
        requires
            a < 0x100,
            b < 0x100,
            c < 0x100,
            d < 0x100,
            v == a * 0x100_0000 + b * 0x1_0000 + c * 0x100 + d,
    ;
    assert(be_bytes_u32(v) =~= s);
}

/// Spelling a number out again gives the eight bytes it was read from.
pub proof fn lemma_be_u64_bytes_of_value(s: Seq<u8>)
    requires
        s.len() == 8,
    ensures
        be_bytes_u64(be_value_u64(s)) == s,
{
    let a = s[0] as u64;
    let b = s[1] as u64;
    let c = s[2] as u64;
    let d = s[3] as u64;
    let e = s[4] as u64;
    let f = s[5] as u64;
    let g = s[6] as u64;
    let h = s[7] as u64;
    let v = be_value_u64(s);
    assert(v == a * 0x100_0000_0000_0000 + b * 0x1_0000_0000_0000 + c * 0x100_0000_0000 + d
        * 0x1_0000_0000 + e * 0x100_0000 + f * 0x1_0000 + g * 0x100 + h);
    assert(v / 0x100_0000_0000_0000 == a && v / 0x1_0000_0000_0000 % 0x100 == b && v
        / 0x100_0000_0000 % 0x100 == c && v / 0x1_0000_0000 % 0x100 == d && v / 0x100_0000 % 0x100
        == e && v / 0x1_0000 % 0x100 == f && v / 0x100 % 0x100 == g && v % 0x100 == h)
        by (bit_vector)
        requires
            a < 0x100,
            b < 0x100,
            c < 0x100,
            d < 0x100,
            e < 0x100,
            f < 0x100,
            g < 0x100,
            h < 0x100,
            v == a * 0x100_0000_0000_0000 + b * 0x1_0000_0000_0000 + c * 0x100_0000_0000 + d
                * 0x1_0000_0000 + e * 0x100_0000 + f * 0x1_0000 + g * 0x100 + h,
    ;
    assert(be_bytes_u64(v) =~= s);
}

} // verus!
