//! Bounds-checked extraction of fixed-width little-endian integers from a
//! byte buffer.  Every multi-byte field of the format is little-endian,
//! fixed width, and unpadded, so these four readers underlie every decode
//! in the library.

use vstd::prelude::*;

use crate::ElfHeaderParseError;

verus! {

/// The 16-bit little-endian value stored at `s[off .. off + 2]`.
pub open spec fn le16(s: Seq<u8>, off: int) -> u16
    recommends
        0 <= off,
        off + 2 <= s.len(),
{
    (s[off] + s[off + 1] * 0x100) as u16
}

/// The 32-bit little-endian value stored at `s[off .. off + 4]`.
pub open spec fn le32(s: Seq<u8>, off: int) -> u32
    recommends
        0 <= off,
        off + 4 <= s.len(),
{
    (s[off] + s[off + 1] * 0x100 + s[off + 2] * 0x1_0000 + s[off + 3] * 0x100_0000) as u32
}

/// The 64-bit little-endian value stored at `s[off .. off + 8]`.
pub open spec fn le64(s: Seq<u8>, off: int) -> u64
    recommends
        0 <= off,
        off + 8 <= s.len(),
{
    (s[off] + s[off + 1] * 0x100 + s[off + 2] * 0x1_0000 + s[off + 3] * 0x100_0000
        + s[off + 4] * 0x1_0000_0000 + s[off + 5] * 0x100_0000_0000
        + s[off + 6] * 0x1_0000_0000_0000 + s[off + 7] * 0x100_0000_0000_0000) as u64
}

/// Reads the byte at `off`, returning it together with the next offset;
/// fails when the buffer ends before `off + 1`.
pub fn read_u8(data: &[u8], off: usize) -> (r: Result<(u8, usize), ElfHeaderParseError>)
    ensures
        off + 1 <= data@.len() ==> r == Ok::<(u8, usize), ElfHeaderParseError>(
            (data@[off as int], (off + 1) as usize),
        ),
        off + 1 > data@.len() ==> r == Err::<(u8, usize), ElfHeaderParseError>(
            ElfHeaderParseError::TruncatedInput,
        ),
{
    if off < data.len() {
        Ok((data[off], off + 1))
    } else {
        Err(ElfHeaderParseError::TruncatedInput)
    }
}

/// Reads the 16-bit little-endian integer at `off`, returning it together
/// with the next offset; fails when the buffer ends before `off + 2`.
pub fn read_u16(data: &[u8], off: usize) -> (r: Result<(u16, usize), ElfHeaderParseError>)
    ensures
        off + 2 <= data@.len() ==> r == Ok::<(u16, usize), ElfHeaderParseError>(
            (le16(data@, off as int), (off + 2) as usize),
        ),
        off + 2 > data@.len() ==> r == Err::<(u16, usize), ElfHeaderParseError>(
            ElfHeaderParseError::TruncatedInput,
        ),
{
    if data.len() >= 2 && off <= data.len() - 2 {
        let b0 = data[off] as u16;
        let b1 = data[off + 1] as u16;
        Ok((b0 + b1 * 0x100, off + 2))
    } else {
        Err(ElfHeaderParseError::TruncatedInput)
    }
}

/// Reads the 32-bit little-endian integer at `off`, returning it together
/// with the next offset; fails when the buffer ends before `off + 4`.
pub fn read_u32(data: &[u8], off: usize) -> (r: Result<(u32, usize), ElfHeaderParseError>)
    ensures
        off + 4 <= data@.len() ==> r == Ok::<(u32, usize), ElfHeaderParseError>(
            (le32(data@, off as int), (off + 4) as usize),
        ),
        off + 4 > data@.len() ==> r == Err::<(u32, usize), ElfHeaderParseError>(
            ElfHeaderParseError::TruncatedInput,
        ),
{
    if data.len() >= 4 && off <= data.len() - 4 {
        let b0 = data[off] as u32;
        let b1 = data[off + 1] as u32;
        let b2 = data[off + 2] as u32;
        let b3 = data[off + 3] as u32;
        Ok((b0 + b1 * 0x100 + b2 * 0x1_0000 + b3 * 0x100_0000, off + 4))
    } else {
        Err(ElfHeaderParseError::TruncatedInput)
    }
}

/// Reads the 64-bit little-endian integer at `off`, returning it together
/// with the next offset; fails when the buffer ends before `off + 8`.
pub fn read_u64(data: &[u8], off: usize) -> (r: Result<(u64, usize), ElfHeaderParseError>)
    ensures
        off + 8 <= data@.len() ==> r == Ok::<(u64, usize), ElfHeaderParseError>(
            (le64(data@, off as int), (off + 8) as usize),
        ),
        off + 8 > data@.len() ==> r == Err::<(u64, usize), ElfHeaderParseError>(
            ElfHeaderParseError::TruncatedInput,
        ),
{
    if data.len() >= 8 && off <= data.len() - 8 {
        let b0 = data[off] as u64;
        let b1 = data[off + 1] as u64;
        let b2 = data[off + 2] as u64;
        let b3 = data[off + 3] as u64;
        let b4 = data[off + 4] as u64;
        let b5 = data[off + 5] as u64;
        let b6 = data[off + 6] as u64;
        let b7 = data[off + 7] as u64;
        Ok((
            b0 + b1 * 0x100 + b2 * 0x1_0000 + b3 * 0x100_0000 + b4 * 0x1_0000_0000
                + b5 * 0x100_0000_0000 + b6 * 0x1_0000_0000_0000 + b7 * 0x100_0000_0000_0000,
            off + 8,
        ))
    } else {
        Err(ElfHeaderParseError::TruncatedInput)
    }
}

} // verus!
