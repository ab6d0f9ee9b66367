use vstd::prelude::*;
use crate::error::DisasmError;

verus! {

/// The value of the two bytes of `s` starting at `off`, read as a
/// little-endian unsigned 16-bit integer.
pub open spec fn spec_u16_le(s: Seq<u8>, off: int) -> u16 {
    (s[off] as int + s[off + 1] as int * 0x100) as u16
}

/// The value of the four bytes of `s` starting at `off`, read as a
/// little-endian unsigned 32-bit integer.
pub open spec fn spec_u32_le(s: Seq<u8>, off: int) -> u32 {
    (s[off] as int + s[off + 1] as int * 0x100 + s[off + 2] as int * 0x1_0000
        + s[off + 3] as int * 0x100_0000) as u32
}

/// The value of the eight bytes of `s` starting at `off`, read as a
/// little-endian unsigned 64-bit integer.
pub open spec fn spec_u64_le(s: Seq<u8>, off: int) -> u64 {
    (s[off] as int + s[off + 1] as int * 0x100 + s[off + 2] as int * 0x1_0000
        + s[off + 3] as int * 0x100_0000 + s[off + 4] as int * 0x1_0000_0000
        + s[off + 5] as int * 0x100_0000_0000 + s[off + 6] as int * 0x1_0000_0000_0000
        + s[off + 7] as int * 0x100_0000_0000_0000) as u64
}

/// Reads a little-endian `u16` from `data` at `offset`.
///
/// This is the bounds-check chokepoint for 2-byte fields: it reads exactly
/// the two bytes at `offset` and `offset + 1`, and fails (rather than read
/// out of bounds) whenever they are not both inside `data`.
pub fn read_u16_le(data: &[u8], offset: usize) -> (r: Result<u16, DisasmError>)
    ensures
        offset + 2 <= data@.len() ==> r == Ok::<u16, DisasmError>(spec_u16_le(data@, offset as int)),
        offset + 2 > data@.len() ==> r == Err::<u16, DisasmError>(DisasmError::TruncatedInstruction),
{
    if data.len() < 2 || offset > data.len() - 2 {
        return Err(DisasmError::TruncatedInstruction);
    }
    let b0 = data[offset];
    let b1 = data[offset + 1];
    Ok(b0 as u16 + b1 as u16 * 0x100)
}

/// Reads a little-endian `u32` from `data` at `offset`.
///
/// Reads exactly the four bytes starting at `offset`, and fails (rather
/// than read out of bounds) whenever they are not all inside `data`.
pub fn read_u32_le(data: &[u8], offset: usize) -> (r: Result<u32, DisasmError>)
    ensures
        offset + 4 <= data@.len() ==> r == Ok::<u32, DisasmError>(spec_u32_le(data@, offset as int)),
        offset + 4 > data@.len() ==> r == Err::<u32, DisasmError>(DisasmError::TruncatedInstruction),
{
    if data.len() < 4 || offset > data.len() - 4 {
        return Err(DisasmError::TruncatedInstruction);
    }
    let b0 = data[offset];
    let b1 = data[offset + 1];
    let b2 = data[offset + 2];
    let b3 = data[offset + 3];
    Ok(b0 as u32 + b1 as u32 * 0x100 + b2 as u32 * 0x1_0000 + b3 as u32 * 0x100_0000)
}

/// Reads a little-endian `u64` from `data` at `offset`.
///
/// Reads exactly the eight bytes starting at `offset`, and fails (rather
/// than read out of bounds) whenever they are not all inside `data`.
pub fn read_u64_le(data: &[u8], offset: usize) -> (r: Result<u64, DisasmError>)
    ensures
        offset + 8 <= data@.len() ==> r == Ok::<u64, DisasmError>(spec_u64_le(data@, offset as int)),
        offset + 8 > data@.len() ==> r == Err::<u64, DisasmError>(DisasmError::TruncatedInstruction),
{
    if data.len() < 8 || offset > data.len() - 8 {
        return Err(DisasmError::TruncatedInstruction);
    }
    let b0 = data[offset];
    let b1 = data[offset + 1];
    let b2 = data[offset + 2];
    let b3 = data[offset + 3];
    let b4 = data[offset + 4];
    let b5 = data[offset + 5];
    let b6 = data[offset + 6];
    let b7 = data[offset + 7];
    Ok(b0 as u64 + b1 as u64 * 0x100 + b2 as u64 * 0x1_0000 + b3 as u64 * 0x100_0000
        + b4 as u64 * 0x1_0000_0000 + b5 as u64 * 0x100_0000_0000
        + b6 as u64 * 0x1_0000_0000_0000 + b7 as u64 * 0x100_0000_0000_0000)
}

} // verus!
