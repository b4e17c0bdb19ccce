//! How an image lays its numbers and records out in bytes.
//!
//! Every number is little-endian. Every record of a table lies `stride` bytes
//! after the one before it, and is only read where its first byte lies at an
//! address that is a multiple of four.

use crate::error::Error;
use crate::units::Offset;
use vstd::prelude::*;
use vstd::slice::slice_subrange;

verus! {

/// The 16-bit number whose two bytes start at `at` in `s`.
pub open spec fn le_u16(s: Seq<u8>, at: int) -> u16 {
    (s[at] as int + 0x100 * (s[at + 1] as int)) as u16
}

/// The 32-bit number whose four bytes start at `at` in `s`.
pub open spec fn le_u32(s: Seq<u8>, at: int) -> u32 {
    (s[at] as int + 0x100 * (s[at + 1] as int) + 0x1_0000 * (s[at + 2] as int) + 0x100_0000 * (s[at
        + 3] as int)) as u32
}

/// The byte `k` of the word `w` as it lies in memory, the low byte first.
pub open spec fn byte_of(w: u32, k: int) -> u8 {
    if k == 0 {
        (w % 0x100) as u8
    } else if k == 1 {
        (w / 0x100 % 0x100) as u8
    } else if k == 2 {
        (w / 0x1_0000 % 0x100) as u8
    } else {
        (w / 0x100_0000) as u8
    }
}

/// The bytes that the words `words` take in memory, four to a word.
pub open spec fn word_bytes(words: Seq<u32>) -> Seq<u8> {
    Seq::new(4 * words.len(), |i: int| byte_of(words[i / 4], i % 4))
}

/// Whether `address` is a multiple of four.
pub open spec fn is_aligned(address: int) -> bool {
    address % 4 == 0
}

/// Where in a buffer of `len` bytes the record `index` of a table starts:
/// `stride * index` bytes after `table`, if that is an index of this machine
/// and not beyond the buffer's end.
pub open spec fn locate(len: nat, table: Offset, stride: u16, index: u16) -> Result<usize, Error> {
    let at = table.0 as int + (stride as int) * (index as int);
    if at > usize::MAX {
        Err(Error::IntegerOverflow)
    } else if at > len {
        Err(Error::UnexpectedEoF)
    } else {
        Ok(at as usize)
    }
}

/// The `size` bytes of `elf` that start at `offset`, if the end of that range
/// is an index of this machine and not beyond the buffer's end.
pub open spec fn payload(elf: Seq<u8>, offset: Offset, size: u32) -> Result<Seq<u8>, Error> {
    let end = offset.0 as int + size as int;
    if end > usize::MAX {
        Err(Error::IntegerOverflow)
    } else if end > elf.len() {
        Err(Error::UnexpectedEoF)
    } else {
        Ok(elf.subrange(offset.0 as int, end))
    }
}

/// A result with its success seen through its view.
pub open spec fn outcome<T: View>(r: Result<T, Error>) -> Result<T::V, Error> {
    match r {
        Ok(value) => Ok(value@),
        Err(e) => Err(e),
    }
}

pub(crate) fn read_u16(bytes: &[u8], at: usize) -> (v: u16)
    requires
        at + 2 <= bytes@.len(),
    ensures
        v == le_u16(bytes@, at as int),
{
    bytes[at] as u16 + 0x100 * (bytes[at + 1] as u16)
}

pub(crate) fn read_u32(bytes: &[u8], at: usize) -> (v: u32)
    requires
        at + 4 <= bytes@.len(),
    ensures
        v == le_u32(bytes@, at as int),
{
    bytes[at] as u32 + 0x100 * (bytes[at + 1] as u32) + 0x1_0000 * (bytes[at + 2] as u32)
        + 0x100_0000 * (bytes[at + 3] as u32)
}

/// The address `by` bytes after `address`, as far as alignment can tell.
pub(crate) fn advance(address: usize, by: usize) -> (a: usize)
    ensures
        is_aligned(a as int) == is_aligned(address + by),
{
    address.wrapping_add(by)
}

pub(crate) fn find_record(len: usize, table: Offset, stride: u16, index: u16) -> (r: Result<
    usize,
    Error,
>)
    ensures
        r == locate(len as nat, table, stride, index),
{
    assert((stride as int) * (index as int) <= 0xFFFF * 0xFFFF) by (nonlinear_arith)
        requires
            0 <= stride <= 0xFFFF,
            0 <= index <= 0xFFFF,
    ;
    let at: u64 = table.0 as u64 + (stride as u64) * (index as u64);
    match usize::try_from(at) {
        Err(_) => Err(Error::IntegerOverflow),
        Ok(at) => if at > len {
            Err(Error::UnexpectedEoF)
        } else {
            Ok(at)
        },
    }
}

pub(crate) fn slice_payload<'a>(elf: &'a [u8], offset: Offset, size: u32) -> (r: Result<
    &'a [u8],
    Error,
>)
    ensures
        outcome(r) == payload(elf@, offset, size),
{
    let end: u64 = offset.0 as u64 + size as u64;
    match usize::try_from(end) {
        Err(_) => Err(Error::IntegerOverflow),
        Ok(end) => if end > elf.len() {
            Err(Error::UnexpectedEoF)
        } else {
            Ok(slice_subrange(elf, offset.0 as usize, end))
        },
    }
}

} // verus!
