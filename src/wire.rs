//! Big-endian integers on the wire.
use byteorder::{ByteOrder, NetworkEndian};
use vstd::prelude::*;

verus! {

/// The two bytes of a word, most significant first.
pub open spec fn word_bytes(n: u16) -> Seq<u8> {
    seq![(n >> 8u16) as u8, (n & 0xffu16) as u8]
}

/// The word whose bytes, most significant first, are `hi` and `lo`.
pub open spec fn word_of(hi: u8, lo: u8) -> u16 {
    ((hi as u16) << 8u16) | (lo as u16)
}

/// The four bytes of an int in two's complement, most significant first.
pub open spec fn int_bytes(n: i32) -> Seq<u8> {
    seq![
        ((n as u32) >> 24u32) as u8,
        ((n as u32) >> 16u32) as u8,
        ((n as u32) >> 8u32) as u8,
        (n as u32) as u8,
    ]
}

/// The int whose two's complement bytes, most significant first, are `b0` to `b3`.
pub open spec fn int_of(b0: u8, b1: u8, b2: u8, b3: u8) -> i32 {
    (((b0 as u32) << 24u32) | ((b1 as u32) << 16u32) | ((b2 as u32) << 8u32) | (b3 as u32)) as i32
}

/// The int that starts at `pos` in `b`.
pub open spec fn int_at(b: Seq<u8>, pos: int) -> i32 {
    int_of(b[pos], b[pos + 1], b[pos + 2], b[pos + 3])
}

/// The word that starts at `pos` in `b`.
pub open spec fn word_at(b: Seq<u8>, pos: int) -> u16 {
    word_of(b[pos], b[pos + 1])
}

/// Reading back the bytes of a word gives the word.
pub proof fn lemma_word_round_trip(n: u16)
    ensures
        word_of(word_bytes(n)[0], word_bytes(n)[1]) == n,
{
    assert((((((n >> 8u16) as u8) as u16) << 8u16) | (((n & 0xffu16) as u8) as u16)) == n)
        by (bit_vector);
}

/// Reading back the bytes of an int gives the int.
pub proof fn lemma_int_round_trip(n: i32)
    ensures
        int_of(int_bytes(n)[0], int_bytes(n)[1], int_bytes(n)[2], int_bytes(n)[3]) == n,
{
    assert(((((((n as u32) >> 24u32) as u8) as u32) << 24u32) | (((((n as u32) >> 16u32) as u8) as u32) << 16u32)
        | (((((n as u32) >> 8u32) as u8) as u32) << 8u32) | ((((n as u32) as u8) as u32))) as i32 == n)
        by (bit_vector);
}

/// The bytes of the word read from two bytes are those bytes.
pub proof fn lemma_word_bytes_of(hi: u8, lo: u8)
    ensures
        word_bytes(word_of(hi, lo)) == seq![hi, lo],
{
    let w = word_of(hi, lo);
    assert(((((hi as u16) << 8u16) | (lo as u16)) >> 8u16) as u8 == hi) by (bit_vector);
    assert(((((hi as u16) << 8u16) | (lo as u16)) & 0xffu16) as u8 == lo) by (bit_vector);
    assert(word_bytes(w) =~= seq![hi, lo]);
}

/// The bytes of the int read from four bytes are those bytes.
pub proof fn lemma_int_bytes_of(b0: u8, b1: u8, b2: u8, b3: u8)
    ensures
        int_bytes(int_of(b0, b1, b2, b3)) == seq![b0, b1, b2, b3],
{
    let n = int_of(b0, b1, b2, b3);
    assert(((((((b0 as u32) << 24u32) | ((b1 as u32) << 16u32) | ((b2 as u32) << 8u32) | (b3 as u32))
        as i32) as u32) >> 24u32) as u8 == b0) by (bit_vector);
    assert(((((((b0 as u32) << 24u32) | ((b1 as u32) << 16u32) | ((b2 as u32) << 8u32) | (b3 as u32))
        as i32) as u32) >> 16u32) as u8 == b1) by (bit_vector);
    assert(((((((b0 as u32) << 24u32) | ((b1 as u32) << 16u32) | ((b2 as u32) << 8u32) | (b3 as u32))
        as i32) as u32) >> 8u32) as u8 == b2) by (bit_vector);
    assert((((((b0 as u32) << 24u32) | ((b1 as u32) << 16u32) | ((b2 as u32) << 8u32) | (b3 as u32))
        as i32) as u32) as u8 == b3) by (bit_vector);
    assert(int_bytes(n) =~= seq![b0, b1, b2, b3]);
}

/// Relies on byteorder's `NetworkEndian::read_u16`: the first two bytes of
/// `b`, most significant first (it panics on fewer than two).
#[verifier::external_body]
pub(crate) fn read_word_be(b: &[u8]) -> (r: u16)
    requires
        b@.len() >= 2,
    ensures
        r == word_of(b@[0], b@[1]),
{
    NetworkEndian::read_u16(b)
}

/// Relies on byteorder's `NetworkEndian::read_i32`: the first four bytes of
/// `b` as a two's complement int, most significant first (it panics on fewer
/// than four).
#[verifier::external_body]
pub(crate) fn read_int_be(b: &[u8]) -> (r: i32)
    requires
        b@.len() >= 4,
    ensures
        r == int_of(b@[0], b@[1], b@[2], b@[3]),
{
    NetworkEndian::read_i32(b)
}

/// Relies on byteorder's `NetworkEndian::write_u16`: it writes `n` into the
/// first two bytes of the buffer, most significant first.
#[verifier::external_body]
pub(crate) fn write_word_be(n: u16) -> (r: [u8; 2])
    ensures
        r@ == word_bytes(n),
{
    let mut buf = [0u8; 2];
    NetworkEndian::write_u16(&mut buf, n);
    buf
}

/// Relies on byteorder's `NetworkEndian::write_i32`: it writes `n` in two's
/// complement into the first four bytes of the buffer, most significant first.
#[verifier::external_body]
pub(crate) fn write_int_be(n: i32) -> (r: [u8; 4])
    ensures
        r@ == int_bytes(n),
{
    let mut buf = [0u8; 4];
    NetworkEndian::write_i32(&mut buf, n);
    buf
}

} // verus!
