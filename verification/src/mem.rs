//! The remote memory reader: raw byte copies out of the foreign process,
//! plus the typed decodes built on top of them.
//!
//! Every read is fallible — the foreign process may have exited or the
//! address may be unmapped — and a failure is reported to the caller
//! rather than defaulted, so that no half-read status is ever produced.

use vstd::prelude::*;

verus! {

use read_process_memory::ProcessHandle;
use crate::codec::{decode_bool, decode_u32_le, decode_u16_le};

/// The one failure the extraction core distinguishes: the foreign
/// process's memory could not be read at the requested address.
#[derive(Clone, Copy, PartialEq, Eq, Structural, Debug)]
pub enum MemError {
    Unreadable,
}

#[verifier::external_type_specification]
#[verifier::external_body]
pub struct ExProcessHandle(ProcessHandle);

/// Relies on read_process_memory::copy_address: on success the returned
/// buffer holds exactly `len` bytes copied from the foreign process's
/// address space; any failure of the underlying read surfaces as an error.
#[verifier::external_body]
fn copy_foreign(addr: usize, len: usize, handle: &ProcessHandle) -> (r: Result<
    Vec<u8>,
    MemError,
>)
    ensures
        r matches Ok(v) ==> v@.len() == len,
{
    match read_process_memory::copy_address(addr, len, handle) {
        Ok(v) => Ok(v),
        Err(_) => Err(MemError::Unreadable),
    }
}

/// Relies on String::push: appends exactly one character at the end.
#[verifier::external_body]
fn string_push(s: &mut String, c: char)
    ensures
        final(s)@ == old(s)@.push(c),
{
    s.push(c);
}

/// Base-plus-offset arithmetic in the foreign address space; overflow is
/// rejected as an unreadable address rather than wrapped.
pub fn foreign_addr(base: usize, offset: usize) -> (r: Result<usize, MemError>)
    ensures
        base + offset <= usize::MAX ==> r == Ok::<usize, MemError>((base + offset) as usize),
        base + offset > usize::MAX ==> r == Err::<usize, MemError>(MemError::Unreadable),
{
    match base.checked_add(offset) {
        Some(a) => Ok(a),
        None => Err(MemError::Unreadable),
    }
}

/// Reads one byte of foreign memory.
pub fn read_byte(addr: usize, handle: &ProcessHandle) -> (r: Result<u8, MemError>) {
    let bytes = copy_foreign(addr, 1, handle)?;
    Ok(bytes[0])
}

/// Reads one byte of foreign memory as a boolean: any nonzero value is
/// true.
pub fn read_bool(addr: usize, handle: &ProcessHandle) -> (r: Result<bool, MemError>) {
    let bytes = copy_foreign(addr, 1, handle)?;
    Ok(decode_bool(&bytes))
}

/// Reads a 32-bit little-endian integer from foreign memory.
pub fn read_int(addr: usize, handle: &ProcessHandle) -> (r: Result<u32, MemError>) {
    let bytes = copy_foreign(addr, 4, handle)?;
    Ok(decode_u32_le(&bytes))
}

/// Reads a 16-bit little-endian integer from foreign memory,
/// zero-extended to 32 bits.
pub fn read_short(addr: usize, handle: &ProcessHandle) -> (r: Result<u32, MemError>)
    ensures
        r matches Ok(v) ==> v <= 0xFFFF,
{
    let bytes = copy_foreign(addr, 2, handle)?;
    Ok(decode_u16_le(&bytes))
}

/// Reads a null-terminated string from foreign memory, one byte at a
/// time, taking each byte as one character. Running past the end of the
/// address space without meeting a terminator is an unreadable address.
pub fn read_string(addr: usize, handle: &ProcessHandle) -> (r: Result<String, MemError>)
    ensures
        r matches Ok(s) ==> forall|i: int|
            0 <= i < s@.len() ==> s@[i] != '\0' && (s@[i] as u32) < 0x100,
{
    let mut s = String::new();
    let mut a = addr;
    loop
        invariant
            forall|i: int| 0 <= i < s@.len() ==> s@[i] != '\0' && (s@[i] as u32) < 0x100,
        decreases usize::MAX - a,
    {
        let b = read_byte(a, handle)?;
        if b == 0 {
            break ;
        }
        string_push(&mut s, b as char);
        if a == usize::MAX {
            return Err(MemError::Unreadable);
        }
        a = a + 1;
    }
    Ok(s)
}

} // verus!
