//! Big-endian integer encoding, through the `byteorder` crate.
use byteorder::{BigEndian, ByteOrder};
use vstd::prelude::*;

verus! {

/// The two bytes of `n`, most significant first.
pub open spec fn be16(n: u16) -> Seq<u8> {
    seq![(n >> 8u16) as u8, n as u8]
}

/// The four bytes of `n`, most significant first.
pub open spec fn be32(n: u32) -> Seq<u8> {
    seq![(n >> 24u32) as u8, (n >> 16u32) as u8, (n >> 8u32) as u8, n as u8]
}

/// The eight bytes of `n`, most significant first.
pub open spec fn be64(n: u64) -> Seq<u8> {
    seq![
        (n >> 56u64) as u8,
        (n >> 48u64) as u8,
        (n >> 40u64) as u8,
        (n >> 32u64) as u8,
        (n >> 24u64) as u8,
        (n >> 16u64) as u8,
        (n >> 8u64) as u8,
        n as u8,
    ]
}

/// The `u16` whose big-endian bytes start at `at` in `b`.
pub open spec fn from_be16(b: Seq<u8>, at: int) -> u16 {
    ((b[at] as u16) << 8u16) | (b[at + 1] as u16)
}

/// The `u32` whose big-endian bytes start at `at` in `b`.
pub open spec fn from_be32(b: Seq<u8>, at: int) -> u32 {
    ((b[at] as u32) << 24u32) | ((b[at + 1] as u32) << 16u32) | ((b[at + 2] as u32) << 8u32) | (
    b[at + 3] as u32)
}

/// The `u64` whose big-endian bytes start at `at` in `b`.
pub open spec fn from_be64(b: Seq<u8>, at: int) -> u64 {
    ((b[at] as u64) << 56u64) | ((b[at + 1] as u64) << 48u64) | ((b[at + 2] as u64) << 40u64) | ((
    b[at + 3] as u64) << 32u64) | ((b[at + 4] as u64) << 24u64) | ((b[at + 5] as u64) << 16u64)
        | ((b[at + 6] as u64) << 8u64) | (b[at + 7] as u64)
}

/// Relies on `byteorder::BigEndian::write_u16`: it stores the two bytes of `n`,
/// most significant first.
#[verifier::external_body]
pub(crate) fn be_bytes_u16(n: u16) -> (r: Vec<u8>)
    ensures
        r@ == be16(n),
{
    let mut b = vec![0u8; 2];
    BigEndian::write_u16(&mut b, n);
    b
}

/// Relies on `byteorder::BigEndian::write_u32`: it stores the four bytes of `n`,
/// most significant first.
#[verifier::external_body]
pub(crate) fn be_bytes_u32(n: u32) -> (r: Vec<u8>)
    ensures
        r@ == be32(n),
{
    let mut b = vec![0u8; 4];
    BigEndian::write_u32(&mut b, n);
    b
}

/// Relies on `byteorder::BigEndian::write_u64`: it stores the eight bytes of `n`,
/// most significant first.
#[verifier::external_body]
pub(crate) fn be_bytes_u64(n: u64) -> (r: Vec<u8>)
    ensures
        r@ == be64(n),
{
    let mut b = vec![0u8; 8];
    BigEndian::write_u64(&mut b, n);
    b
}

/// Relies on `byteorder::BigEndian::read_u16`: it decodes the first two bytes of
/// the slice, most significant first (and panics on fewer).
#[verifier::external_body]
pub(crate) fn read_be_u16(b: &[u8], at: usize) -> (r: u16)
    requires
        at + 2 <= b@.len(),
    ensures
        r == from_be16(b@, at as int),
{
    BigEndian::read_u16(&b[at..])
}

/// Relies on `byteorder::BigEndian::read_u32`: it decodes the first four bytes of
/// the slice, most significant first (and panics on fewer).
#[verifier::external_body]
pub(crate) fn read_be_u32(b: &[u8], at: usize) -> (r: u32)
    requires
        at + 4 <= b@.len(),
    ensures
        r == from_be32(b@, at as int),
{
    BigEndian::read_u32(&b[at..])
}

/// Relies on `byteorder::BigEndian::read_u64`: it decodes the first eight bytes of
/// the slice, most significant first (and panics on fewer).
#[verifier::external_body]
pub(crate) fn read_be_u64(b: &[u8], at: usize) -> (r: u64)
    requires
        at + 8 <= b@.len(),
    ensures
        r == from_be64(b@, at as int),
{
    BigEndian::read_u64(&b[at..])
}

/// Decoding the big-endian bytes of a `u16` gives it back.
pub proof fn lemma_be16_round_trip(n: u16, b: Seq<u8>, at: int)
    requires
        0 <= at,
        at + 2 <= b.len(),
        b.subrange(at, at + 2) == be16(n),
    ensures
        from_be16(b, at) == n,
{
    let (x0, x1) = (b[at], b[at + 1]);
    assert(x0 == b.subrange(at, at + 2)[0]);
    assert(x1 == b.subrange(at, at + 2)[1]);
    assert(((((n >> 8u16) as u8) as u16) << 8u16) | ((n as u8) as u16) == n) by (bit_vector);
}

/// Decoding the big-endian bytes of a `u32` gives it back.
pub proof fn lemma_be32_round_trip(n: u32, b: Seq<u8>, at: int)
    requires
        0 <= at,
        at + 4 <= b.len(),
        b.subrange(at, at + 4) == be32(n),
    ensures
        from_be32(b, at) == n,
{
    let s = b.subrange(at, at + 4);
    assert(b[at] == s[0] && b[at + 1] == s[1] && b[at + 2] == s[2] && b[at + 3] == s[3]);
    assert(((((n >> 24u32) as u8) as u32) << 24u32) | ((((n >> 16u32) as u8) as u32) << 16u32)
        | ((((n >> 8u32) as u8) as u32) << 8u32) | ((n as u8) as u32) == n) by (bit_vector);
}

/// Decoding the big-endian bytes of a `u64` gives it back.
pub proof fn lemma_be64_round_trip(n: u64, b: Seq<u8>, at: int)
    requires
        0 <= at,
        at + 8 <= b.len(),
        b.subrange(at, at + 8) == be64(n),
    ensures
        from_be64(b, at) == n,
{
    let s = b.subrange(at, at + 8);
    assert(b[at] == s[0] && b[at + 1] == s[1] && b[at + 2] == s[2] && b[at + 3] == s[3]);
    assert(b[at + 4] == s[4] && b[at + 5] == s[5] && b[at + 6] == s[6] && b[at + 7] == s[7]);
    assert(((((n >> 56u64) as u8) as u64) << 56u64) | ((((n >> 48u64) as u8) as u64) << 48u64)
        | ((((n >> 40u64) as u8) as u64) << 40u64) | ((((n >> 32u64) as u8) as u64) << 32u64)
        | ((((n >> 24u64) as u8) as u64) << 24u64) | ((((n >> 16u64) as u8) as u64) << 16u64)
        | ((((n >> 8u64) as u8) as u64) << 8u64) | ((n as u8) as u64) == n) by (bit_vector);
}

} // verus!
