//! Fixed-width scalars stored in the foreign heap, least significant byte first.
use byteorder::{ByteOrder, LittleEndian};
use vstd::prelude::*;

use crate::memory::{bytes_at, read_exact, readable, ReadError, ReadMemory};

verus! {

/// The unsigned value of two bytes, least significant first.
pub open spec fn le_u16(b: Seq<u8>) -> u16 {
    (b[0] + 0x100 * b[1]) as u16
}

/// The unsigned value of four bytes, least significant first.
pub open spec fn le_u32(b: Seq<u8>) -> u32 {
    (b[0] + 0x100 * b[1] + 0x1_0000 * b[2] + 0x100_0000 * b[3]) as u32
}

/// The unsigned value of eight bytes, least significant first.
pub open spec fn le_u64(b: Seq<u8>) -> u64 {
    (le_u32(b) + 0x1_0000_0000 * le_u32(b.subrange(4, 8))) as u64
}

/// Four bytes read as a two's complement integer.
pub open spec fn le_i32(b: Seq<u8>) -> i32 {
    let u = le_u32(b) as int;
    (if u < 0x8000_0000 { u } else { u - 0x1_0000_0000 }) as i32
}

/// Eight bytes read as a two's complement integer.
pub open spec fn le_i64(b: Seq<u8>) -> i64 {
    let u = le_u64(b) as int;
    (if u < 0x8000_0000_0000_0000 { u } else { u - 0x1_0000_0000_0000_0000 }) as i64
}

/// Relies on byteorder's `LittleEndian::read_u16`: the first two bytes, least
/// significant first; it panics on fewer than two.
#[verifier::external_body]
fn decode_u16(b: &[u8]) -> (r: u16)
    requires
        b@.len() >= 2,
    ensures
        r == le_u16(b@),
{
    LittleEndian::read_u16(b)
}

/// Relies on byteorder's `LittleEndian::read_u32`: the first four bytes, least
/// significant first; it panics on fewer than four.
#[verifier::external_body]
fn decode_u32(b: &[u8]) -> (r: u32)
    requires
        b@.len() >= 4,
    ensures
        r == le_u32(b@),
{
    LittleEndian::read_u32(b)
}

/// Relies on byteorder's `LittleEndian::read_u64`: the first eight bytes, least
/// significant first; it panics on fewer than eight.
#[verifier::external_body]
fn decode_u64(b: &[u8]) -> (r: u64)
    requires
        b@.len() >= 8,
    ensures
        r == le_u64(b@),
{
    LittleEndian::read_u64(b)
}

/// Relies on byteorder's `LittleEndian::read_i32`: `read_u32` reinterpreted as
/// two's complement.
#[verifier::external_body]
fn decode_i32(b: &[u8]) -> (r: i32)
    requires
        b@.len() >= 4,
    ensures
        r == le_i32(b@),
{
    LittleEndian::read_i32(b)
}

/// Relies on byteorder's `LittleEndian::read_i64`: `read_u64` reinterpreted as
/// two's complement.
#[verifier::external_body]
fn decode_i64(b: &[u8]) -> (r: i64)
    requires
        b@.len() >= 8,
    ensures
        r == le_i64(b@),
{
    LittleEndian::read_i64(b)
}

/// Relies on byteorder's `LittleEndian::write_u16`: the two bytes from `at` on
/// become those that read back as `n`; it panics when they do not fit.
#[verifier::external_body]
pub(crate) fn encode_u16(buf: &mut Vec<u8>, at: usize, n: u16)
    requires
        at + 2 <= old(buf)@.len(),
    ensures
        final(buf)@.len() == old(buf)@.len(),
        le_u16(final(buf)@.subrange(at as int, at + 2)) == n,
        forall|i: int| 0 <= i < old(buf)@.len() && !(at <= i < at + 2)
            ==> final(buf)@[i] == old(buf)@[i],
{
    LittleEndian::write_u16(&mut buf[at..], n)
}

/// Relies on byteorder's `LittleEndian::write_u32`: the four bytes from `at` on
/// become those that read back as `n`; it panics when they do not fit.
#[verifier::external_body]
pub(crate) fn encode_u32(buf: &mut Vec<u8>, at: usize, n: u32)
    requires
        at + 4 <= old(buf)@.len(),
    ensures
        final(buf)@.len() == old(buf)@.len(),
        le_u32(final(buf)@.subrange(at as int, at + 4)) == n,
        forall|i: int| 0 <= i < old(buf)@.len() && !(at <= i < at + 4)
            ==> final(buf)@[i] == old(buf)@[i],
{
    LittleEndian::write_u32(&mut buf[at..], n)
}

/// Relies on byteorder's `LittleEndian::write_u64`: the eight bytes from `at` on
/// become those that read back as `n`; it panics when they do not fit.
#[verifier::external_body]
pub(crate) fn encode_u64(buf: &mut Vec<u8>, at: usize, n: u64)
    requires
        at + 8 <= old(buf)@.len(),
    ensures
        final(buf)@.len() == old(buf)@.len(),
        le_u64(final(buf)@.subrange(at as int, at + 8)) == n,
        forall|i: int| 0 <= i < old(buf)@.len() && !(at <= i < at + 8)
            ==> final(buf)@[i] == old(buf)@[i],
{
    LittleEndian::write_u64(&mut buf[at..], n)
}

/// What reading `len` bytes at `address` gives.
pub open spec fn spec_read(image: Map<int, u8>, address: int, len: nat) -> Result<Seq<u8>, ReadError> {
    if readable(image, address, len as int) {
        Ok(bytes_at(image, address, len))
    } else {
        Err(ReadError::MemoryRead)
    }
}

pub open spec fn spec_read_bool(image: Map<int, u8>, address: int) -> Result<bool, ReadError> {
    match spec_read(image, address, 1) {
        Ok(b) => Ok(b[0] != 0),
        Err(e) => Err(e),
    }
}

pub open spec fn spec_read_u32(image: Map<int, u8>, address: int) -> Result<u32, ReadError> {
    match spec_read(image, address, 4) {
        Ok(b) => Ok(le_u32(b)),
        Err(e) => Err(e),
    }
}

pub open spec fn spec_read_i32(image: Map<int, u8>, address: int) -> Result<i32, ReadError> {
    match spec_read(image, address, 4) {
        Ok(b) => Ok(le_i32(b)),
        Err(e) => Err(e),
    }
}

pub open spec fn spec_read_u64(image: Map<int, u8>, address: int) -> Result<u64, ReadError> {
    match spec_read(image, address, 8) {
        Ok(b) => Ok(le_u64(b)),
        Err(e) => Err(e),
    }
}

pub open spec fn spec_read_i64(image: Map<int, u8>, address: int) -> Result<i64, ReadError> {
    match spec_read(image, address, 8) {
        Ok(b) => Ok(le_i64(b)),
        Err(e) => Err(e),
    }
}

/// Reads a byte; any value but zero is `true`.
pub fn read_bool<M: ReadMemory>(mem: &M, address: u64) -> (r: Result<bool, ReadError>)
    ensures
        r == spec_read_bool(mem.image().bytes@, address as int),
{
    let b = read_exact(mem, address, 1)?;
    Ok(b[0] != 0)
}

pub fn read_u16<M: ReadMemory>(mem: &M, address: u64) -> (r: Result<u16, ReadError>)
    ensures
        r matches Ok(v) ==> readable(mem.image().bytes@, address as int, 2)
            && v == le_u16(bytes_at(mem.image().bytes@, address as int, 2)),
        r is Err ==> !readable(mem.image().bytes@, address as int, 2) && r == Err::<u16, _>(ReadError::MemoryRead),
{
    let b = read_exact(mem, address, 2)?;
    Ok(decode_u16(b.as_slice()))
}

pub fn read_u32<M: ReadMemory>(mem: &M, address: u64) -> (r: Result<u32, ReadError>)
    ensures
        r == spec_read_u32(mem.image().bytes@, address as int),
{
    let b = read_exact(mem, address, 4)?;
    Ok(decode_u32(b.as_slice()))
}

pub fn read_i32<M: ReadMemory>(mem: &M, address: u64) -> (r: Result<i32, ReadError>)
    ensures
        r == spec_read_i32(mem.image().bytes@, address as int),
{
    let b = read_exact(mem, address, 4)?;
    Ok(decode_i32(b.as_slice()))
}

pub fn read_u64<M: ReadMemory>(mem: &M, address: u64) -> (r: Result<u64, ReadError>)
    ensures
        r == spec_read_u64(mem.image().bytes@, address as int),
{
    let b = read_exact(mem, address, 8)?;
    Ok(decode_u64(b.as_slice()))
}

pub fn read_i64<M: ReadMemory>(mem: &M, address: u64) -> (r: Result<i64, ReadError>)
    ensures
        r == spec_read_i64(mem.image().bytes@, address as int),
{
    let b = read_exact(mem, address, 8)?;
    Ok(decode_i64(b.as_slice()))
}

/// A signed 32-bit value taken as unsigned 64-bit, modulo 2^64, as `as` does.
pub open spec fn i32_as_u64(c: i32) -> u64 {
    if c >= 0 {
        c as u64
    } else {
        (c + 0x1_0000_0000_0000_0000) as u64
    }
}

/// `c` taken as unsigned 64-bit, modulo 2^64.
pub fn widen_i32(c: i32) -> (r: u64)
    ensures
        r == i32_as_u64(c),
{
    if c >= 0 {
        c as u64
    } else {
        u64::MAX - ((-(c as i64) - 1) as u64)
    }
}

} // verus!
