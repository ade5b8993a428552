//! Big-endian integers as they appear in device frames.

use byteorder::{BigEndian, ByteOrder, WriteBytesExt};
use vstd::prelude::*;
use vstd::slice::*;

verus! {

/// The unsigned value of the four bytes that start at `at`, most significant
/// byte first.
pub open spec fn be_u32(bytes: Seq<u8>, at: int) -> u32
    recommends
        0 <= at,
        at + 4 <= bytes.len(),
{
    (bytes[at] as int * 0x100_0000 + bytes[at + 1] as int * 0x1_0000 + bytes[at + 2] as int * 0x100
        + bytes[at + 3] as int) as u32
}

/// The two's-complement value of the four bytes that start at `at`, most
/// significant byte first.
pub open spec fn be_i32(bytes: Seq<u8>, at: int) -> i32
    recommends
        0 <= at,
        at + 4 <= bytes.len(),
{
    if be_u32(bytes, at) >= 0x8000_0000 {
        (be_u32(bytes, at) - 0x1_0000_0000) as i32
    } else {
        be_u32(bytes, at) as i32
    }
}

/// The four bytes of an unsigned value, most significant byte first.
pub open spec fn u32_be_bytes(n: u32) -> Seq<u8> {
    seq![
        (n / 0x100_0000) as u8,
        (n / 0x1_0000 % 0x100) as u8,
        (n / 0x100 % 0x100) as u8,
        (n % 0x100) as u8,
    ]
}

/// The four bytes of a signed value in two's complement, most significant
/// byte first.
pub open spec fn i32_be_bytes(n: i32) -> Seq<u8> {
    if n < 0 {
        u32_be_bytes((n + 0x1_0000_0000) as u32)
    } else {
        u32_be_bytes(n as u32)
    }
}

/// Calls `byteorder::BigEndian::read_u32`, which panics on fewer than four
/// bytes and otherwise interprets the first four as a big-endian `u32`.
#[verifier::external_body]
fn read_u32_be(buf: &[u8]) -> (n: u32)
    requires
        buf@.len() >= 4,
    ensures
        n == be_u32(buf@, 0),
{
    BigEndian::read_u32(buf)
}

/// Calls `byteorder::BigEndian::read_i32`, which panics on fewer than four
/// bytes and otherwise reinterprets the big-endian `u32` of the first four
/// as an `i32`.
#[verifier::external_body]
fn read_i32_be(buf: &[u8]) -> (n: i32)
    requires
        buf@.len() >= 4,
    ensures
        n == be_i32(buf@, 0),
{
    BigEndian::read_i32(buf)
}

/// Calls `byteorder::WriteBytesExt::write_u32` with `BigEndian` on a `Vec`,
/// which appends the four big-endian bytes of `n`; writing to a `Vec` does
/// not fail.
#[verifier::external_body]
pub(crate) fn write_u32_be(out: &mut Vec<u8>, n: u32)
    ensures
        final(out)@ == old(out)@ + u32_be_bytes(n),
{
    let _ = WriteBytesExt::write_u32::<BigEndian>(out, n);
}

/// Calls `byteorder::WriteBytesExt::write_i32` with `BigEndian` on a `Vec`,
/// which appends the four big-endian bytes of the two's complement of `n`;
/// writing to a `Vec` does not fail.
#[verifier::external_body]
pub(crate) fn write_i32_be(out: &mut Vec<u8>, n: i32)
    ensures
        final(out)@ == old(out)@ + i32_be_bytes(n),
{
    let _ = WriteBytesExt::write_i32::<BigEndian>(out, n);
}

/// Reads the big-endian `u32` at offset `at`.
pub fn u32_at(bytes: &[u8], at: usize) -> (n: u32)
    requires
        at + 4 <= bytes@.len(),
    ensures
        n == be_u32(bytes@, at as int),
{
    let tail = slice_subrange(bytes, at, bytes.len());
    read_u32_be(tail)
}

/// Reads the big-endian `i32` at offset `at`.
pub fn i32_at(bytes: &[u8], at: usize) -> (n: i32)
    requires
        at + 4 <= bytes@.len(),
    ensures
        n == be_i32(bytes@, at as int),
{
    let tail = slice_subrange(bytes, at, bytes.len());
    read_i32_be(tail)
}

/// Four bytes that hold the big-endian form of `n` read back as `n`.
pub proof fn lemma_u32_round_trip(n: u32, bytes: Seq<u8>, at: int)
    requires
        0 <= at,
        at + 4 <= bytes.len(),
        bytes.subrange(at, at + 4) == u32_be_bytes(n),
    ensures
        be_u32(bytes, at) == n,
{
    let part = bytes.subrange(at, at + 4);
    assert(bytes[at] == part[0]);
    assert(bytes[at + 1] == part[1]);
    assert(bytes[at + 2] == part[2]);
    assert(bytes[at + 3] == part[3]);
    assert((n / 0x100_0000) as int * 0x100_0000 + (n / 0x1_0000 % 0x100) as int * 0x1_0000 + (n
        / 0x100 % 0x100) as int * 0x100 + (n % 0x100) as int == n as int);
}

/// Four bytes that hold the big-endian two's complement of `n` read back as
/// `n`.
pub proof fn lemma_i32_round_trip(n: i32, bytes: Seq<u8>, at: int)
    requires
        0 <= at,
        at + 4 <= bytes.len(),
        bytes.subrange(at, at + 4) == i32_be_bytes(n),
    ensures
        be_i32(bytes, at) == n,
{
    if n < 0 {
        lemma_u32_round_trip((n + 0x1_0000_0000) as u32, bytes, at);
    } else {
        lemma_u32_round_trip(n as u32, bytes, at);
    }
}

/// What was read from a sequence is read from any extension of it.
pub proof fn lemma_append_keeps_reads(bytes: Seq<u8>, more: Seq<u8>)
    ensures
        forall|at: int|
            0 <= at && at + 4 <= bytes.len() ==> #[trigger] be_u32(bytes + more, at) == be_u32(
                bytes,
                at,
            ),
        forall|at: int|
            0 <= at && at + 4 <= bytes.len() ==> #[trigger] be_i32(bytes + more, at) == be_i32(
                bytes,
                at,
            ),
{
    assert forall|at: int| 0 <= at && at + 4 <= bytes.len() implies #[trigger] be_u32(
        bytes + more,
        at,
    ) == be_u32(bytes, at) by {
        assert((bytes + more)[at] == bytes[at]);
        assert((bytes + more)[at + 1] == bytes[at + 1]);
        assert((bytes + more)[at + 2] == bytes[at + 2]);
        assert((bytes + more)[at + 3] == bytes[at + 3]);
    }
}

/// A value appended in big-endian form is read back at the old end.
pub proof fn lemma_appended_u32(bytes: Seq<u8>, n: u32)
    ensures
        be_u32(bytes + u32_be_bytes(n), bytes.len() as int) == n,
{
    let all = bytes + u32_be_bytes(n);
    assert(all.subrange(bytes.len() as int, bytes.len() as int + 4) =~= u32_be_bytes(n));
    lemma_u32_round_trip(n, all, bytes.len() as int);
}

/// A signed value appended in big-endian form is read back at the old end.
pub proof fn lemma_appended_i32(bytes: Seq<u8>, n: i32)
    ensures
        be_i32(bytes + i32_be_bytes(n), bytes.len() as int) == n,
{
    let all = bytes + i32_be_bytes(n);
    assert(all.subrange(bytes.len() as int, bytes.len() as int + 4) =~= i32_be_bytes(n));
    lemma_i32_round_trip(n, all, bytes.len() as int);
}

} // verus!
