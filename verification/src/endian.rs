//! Big-endian integer fields.
//!
//! Every field is stated as arithmetic on the number it holds: byte `i` of an
//! `n`-byte field is the digit of weight `256^(n - 1 - i)`.

use vstd::prelude::*;

verus! {

/// The eight bytes of `x`, most significant first.
pub open spec fn be_bytes_u64(x: u64) -> Seq<u8> {
    seq![
        (x / 0x100_0000_0000_0000) as u8,
        (x / 0x1_0000_0000_0000 % 0x100) as u8,
        (x / 0x100_0000_0000 % 0x100) as u8,
        (x / 0x1_0000_0000 % 0x100) as u8,
        (x / 0x100_0000 % 0x100) as u8,
        (x / 0x1_0000 % 0x100) as u8,
        (x / 0x100 % 0x100) as u8,
        (x % 0x100) as u8,
    ]
}

/// The number that the first eight bytes of `s` spell, most significant first.
pub open spec fn u64_of_be_bytes(s: Seq<u8>) -> u64
    recommends
        s.len() >= 8,
{
    (s[0] * 0x100_0000_0000_0000 + s[1] * 0x1_0000_0000_0000 + s[2] * 0x100_0000_0000 + s[3]
        * 0x1_0000_0000 + s[4] * 0x100_0000 + s[5] * 0x1_0000 + s[6] * 0x100 + s[7]) as u64
}

/// The four bytes of `x`, most significant first.
pub open spec fn be_bytes_u32(x: u32) -> Seq<u8> {
    seq![
        (x / 0x100_0000) as u8,
        (x / 0x1_0000 % 0x100) as u8,
        (x / 0x100 % 0x100) as u8,
        (x % 0x100) as u8,
    ]
}

/// The number that the first four bytes of `s` spell, most significant first.
pub open spec fn u32_of_be_bytes(s: Seq<u8>) -> u32
    recommends
        s.len() >= 4,
{
    (s[0] * 0x100_0000 + s[1] * 0x1_0000 + s[2] * 0x100 + s[3]) as u32
}

/// The 64 bits that hold `v` in two's complement, read as an unsigned number.
pub open spec fn bits_of_i64(v: i64) -> u64 {
    if v >= 0 {
        v as u64
    } else {
        (v + 0x1_0000_0000_0000_0000) as u64
    }
}

/// The signed number that the 64 bits `u` hold in two's complement.
pub open spec fn i64_of_bits(u: u64) -> i64 {
    if u <= i64::MAX {
        u as i64
    } else {
        (u - 0x1_0000_0000_0000_0000) as i64
    }
}

/// Reading back the eight bytes of a number gives the number.
pub proof fn lemma_u64_be_round_trip(x: u64)
    ensures
        be_bytes_u64(x).len() == 8,
        u64_of_be_bytes(be_bytes_u64(x)) == x,
{
    assert(x == (x / 0x100_0000_0000_0000) * 0x100_0000_0000_0000 + (x / 0x1_0000_0000_0000
        % 0x100) * 0x1_0000_0000_0000 + (x / 0x100_0000_0000 % 0x100) * 0x100_0000_0000 + (x
        / 0x1_0000_0000 % 0x100) * 0x1_0000_0000 + (x / 0x100_0000 % 0x100) * 0x100_0000 + (x
        / 0x1_0000 % 0x100) * 0x1_0000 + (x / 0x100 % 0x100) * 0x100 + x % 0x100)
        by (bit_vector);
    assert(x / 0x100_0000_0000_0000 < 0x100) by (bit_vector);
}

/// Reading back the four bytes of a number gives the number.
pub proof fn lemma_u32_be_round_trip(x: u32)
    ensures
        be_bytes_u32(x).len() == 4,
        u32_of_be_bytes(be_bytes_u32(x)) == x,
{
    assert(x == (x / 0x100_0000) * 0x100_0000 + (x / 0x1_0000 % 0x100) * 0x1_0000 + (x / 0x100
        % 0x100) * 0x100 + x % 0x100) by (bit_vector);
    assert(x / 0x100_0000 < 0x100) by (bit_vector);
}

/// Spelling out the number that eight bytes spell gives the bytes back.
pub proof fn lemma_u64_be_bytes_back(s: Seq<u8>)
    requires
        s.len() >= 8,
    ensures
        be_bytes_u64(u64_of_be_bytes(s)) == s.subrange(0, 8),
{
    let (b0, b1, b2, b3, b4, b5, b6, b7) = (s[0], s[1], s[2], s[3], s[4], s[5], s[6], s[7]);
    let x = u64_of_be_bytes(s);
    assert(x / 0x100_0000_0000_0000 == b0 && x / 0x1_0000_0000_0000 % 0x100 == b1 && x
        / 0x100_0000_0000 % 0x100 == b2 && x / 0x1_0000_0000 % 0x100 == b3 && x / 0x100_0000
        % 0x100 == b4 && x / 0x1_0000 % 0x100 == b5 && x / 0x100 % 0x100 == b6 && x % 0x100
        == b7) by (bit_vector)
        requires
            x == b0 * 0x100_0000_0000_0000 + b1 * 0x1_0000_0000_0000 + b2 * 0x100_0000_0000 + b3
                * 0x1_0000_0000 + b4 * 0x100_0000 + b5 * 0x1_0000 + b6 * 0x100 + b7,
    ;
    assert(be_bytes_u64(x) =~= s.subrange(0, 8));
}

/// Spelling out the number that four bytes spell gives the bytes back.
pub proof fn lemma_u32_be_bytes_back(s: Seq<u8>)
    requires
        s.len() >= 4,
    ensures
        be_bytes_u32(u32_of_be_bytes(s)) == s.subrange(0, 4),
{
    let (b0, b1, b2, b3) = (s[0], s[1], s[2], s[3]);
    let x = u32_of_be_bytes(s);
    assert(x / 0x100_0000 == b0 && x / 0x1_0000 % 0x100 == b1 && x / 0x100 % 0x100 == b2 && x
        % 0x100 == b3) by (bit_vector)
        requires
            x == b0 * 0x100_0000 + b1 * 0x1_0000 + b2 * 0x100 + b3,
    ;
    assert(be_bytes_u32(x) =~= s.subrange(0, 4));
}

/// Two's complement loses nothing: the bits of a signed number give it back.
pub proof fn lemma_i64_bits_round_trip(v: i64)
    ensures
        i64_of_bits(bits_of_i64(v)) == v,
{
}

/// Every 64 bits hold a signed number, and are its bits.
pub proof fn lemma_i64_bits_back(u: u64)
    ensures
        bits_of_i64(i64_of_bits(u)) == u,
{
}

/// Appends the eight bytes of `x` to `out`, most significant first.
pub fn put_u64(out: &mut Vec<u8>, x: u64)
    ensures
        final(out)@ == old(out)@ + be_bytes_u64(x),
{
    out.push((x / 0x100_0000_0000_0000) as u8);
    out.push((x / 0x1_0000_0000_0000 % 0x100) as u8);
    out.push((x / 0x100_0000_0000 % 0x100) as u8);
    out.push((x / 0x1_0000_0000 % 0x100) as u8);
    out.push((x / 0x100_0000 % 0x100) as u8);
    out.push((x / 0x1_0000 % 0x100) as u8);
    out.push((x / 0x100 % 0x100) as u8);
    out.push((x % 0x100) as u8);
    assert(out@ =~= old(out)@ + be_bytes_u64(x));
}

/// Appends the four bytes of `x` to `out`, most significant first.
pub fn put_u32(out: &mut Vec<u8>, x: u32)
    ensures
        final(out)@ == old(out)@ + be_bytes_u32(x),
{
    out.push((x / 0x100_0000) as u8);
    out.push((x / 0x1_0000 % 0x100) as u8);
    out.push((x / 0x100 % 0x100) as u8);
    out.push((x % 0x100) as u8);
    assert(out@ =~= old(out)@ + be_bytes_u32(x));
}

/// Reads the number that the first eight bytes of `buf` spell.
pub fn get_u64(buf: &[u8]) -> (x: u64)
    requires
        buf@.len() >= 8,
    ensures
        x == u64_of_be_bytes(buf@),
{
    let b0: u64 = buf[0] as u64;
    let b1: u64 = buf[1] as u64;
    let b2: u64 = buf[2] as u64;
    let b3: u64 = buf[3] as u64;
    let b4: u64 = buf[4] as u64;
    let b5: u64 = buf[5] as u64;
    let b6: u64 = buf[6] as u64;
    let b7: u64 = buf[7] as u64;
    b0 * 0x100_0000_0000_0000 + b1 * 0x1_0000_0000_0000 + b2 * 0x100_0000_0000 + b3
        * 0x1_0000_0000 + b4 * 0x100_0000 + b5 * 0x1_0000 + b6 * 0x100 + b7
}

/// Reads the number that the first four bytes of `buf` spell.
pub fn get_u32(buf: &[u8]) -> (x: u32)
    requires
        buf@.len() >= 4,
    ensures
        x == u32_of_be_bytes(buf@),
{
    let b0: u32 = buf[0] as u32;
    let b1: u32 = buf[1] as u32;
    let b2: u32 = buf[2] as u32;
    let b3: u32 = buf[3] as u32;
    b0 * 0x100_0000 + b1 * 0x1_0000 + b2 * 0x100 + b3
}

/// The bits of `v` in two's complement.
pub fn i64_to_bits(v: i64) -> (u: u64)
    ensures
        u == bits_of_i64(v),
{
    if v >= 0 {
        v as u64
    } else {
        u64::MAX - ((-(v + 1)) as u64)
    }
}

/// The signed number that the bits `u` hold.
pub fn i64_from_bits(u: u64) -> (v: i64)
    ensures
        v == i64_of_bits(u),
{
    if u <= 0x7fff_ffff_ffff_ffff {
        u as i64
    } else {
        -((u64::MAX - u) as i64) - 1
    }
}

} // verus!
