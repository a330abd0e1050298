//! Big-endian integers on the wire, read and written by the `byteorder` crate.

use byteorder::{BigEndian, ByteOrder};
use vstd::prelude::*;

verus! {

/// The number that a run of bytes spells, most significant byte first.
pub open spec fn be_value(bytes: Seq<u8>) -> nat
    decreases bytes.len(),
{
    if bytes.len() == 0 {
        0
    } else {
        be_value(bytes.drop_last()) * 256 + bytes.last() as nat
    }
}

/// The least number of bytes that can spell `n`, counting one byte for zero.
pub open spec fn bytes_needed(n: u64) -> nat {
    if n < 0x100 {
        1
    } else if n < 0x1_0000 {
        2
    } else if n < 0x100_0000 {
        3
    } else if n < 0x1_0000_0000 {
        4
    } else if n < 0x100_0000_0000 {
        5
    } else if n < 0x1_0000_0000_0000 {
        6
    } else if n < 0x100_0000_0000_0000 {
        7
    } else {
        8
    }
}

/// `BigEndian::read_u16`: the first two bytes of `buf` as a number, the first
/// byte being the upper half. It panics on a shorter buffer.
#[verifier::external_body]
pub(crate) fn read_u16(buf: &[u8]) -> (n: u16)
    requires
        buf@.len() >= 2,
    ensures
        n == buf@[0] * 256 + buf@[1],
{
    BigEndian::read_u16(buf)
}

/// `BigEndian::write_u16` into a buffer of two bytes: the upper half of `n`
/// comes first.
#[verifier::external_body]
pub(crate) fn write_u16(n: u16) -> (buf: [u8; 2])
    ensures
        buf@[0] == n / 256,
        buf@[1] == n % 256,
{
    let mut buf = [0u8; 2];
    BigEndian::write_u16(&mut buf, n);
    buf
}

/// `BigEndian::read_uint`: the first `nbytes` bytes of `buf` as a number. It
/// panics unless `nbytes` is between one and eight and the buffer holds as many.
#[verifier::external_body]
pub(crate) fn read_uint(buf: &[u8], nbytes: usize) -> (n: u64)
    requires
        1 <= nbytes <= 8,
        nbytes <= buf@.len(),
    ensures
        n == be_value(buf@.subrange(0, nbytes as int)),
{
    BigEndian::read_uint(buf, nbytes)
}

/// `BigEndian::write_uint` into a fresh buffer of `nbytes` bytes: the bytes
/// spell `n`. It panics unless `nbytes` is between one and eight and `n` can be
/// spelled in as many bytes.
#[verifier::external_body]
pub(crate) fn write_uint(n: u64, nbytes: usize) -> (buf: Vec<u8>)
    requires
        bytes_needed(n) <= nbytes <= 8,
    ensures
        buf@.len() == nbytes,
        be_value(buf@) == n,
{
    let mut buf = vec![0u8; nbytes];
    BigEndian::write_uint(&mut buf, n, nbytes);
    buf
}

} // verus!
