//! Decoding of the fixed 64-byte ELF file header.
//!
//! The identification block is read first and the four magic bytes are
//! checked before any other field is trusted; the remaining fields are then
//! decoded strictly in on-disk order.

use vstd::prelude::*;

use crate::cursor::{le16, le32, le64, read_u16, read_u32, read_u64};
use crate::ElfHeaderParseError;

verus! {

/// The decoded ELF file header.  All multi-byte fields are little-endian;
/// `e_entry`, `e_phoff` and `e_shoff` are the full 8-byte fields of the
/// 64-bit class.
#[derive(Debug, Clone, Copy)]
pub struct ElfHeader {
    pub e_ident: [u8; 16],
    pub e_type: u16,
    pub e_machine: u16,
    pub e_version: u32,
    pub e_entry: u64,
    pub e_phoff: u64,
    pub e_shoff: u64,
    pub e_flags: u32,
    pub e_ehsize: u16,
    pub e_phentsize: u16,
    pub e_phnum: u16,
    pub e_shentsize: u16,
    pub e_shnum: u16,
    pub e_shstrndx: u16,
}

/// The object file kind stored in `e_type`.
#[derive(Debug, Clone, Copy, PartialEq, Eq, Structural)]
pub enum ElfObjectFileType {
    NoType,
    Rel,
    Exec,
    Dyn,
    Core,
    Loos,
    Hioos,
    Loproc,
    Hiproc,
}

/// The `e_type` values that name an object file kind.
pub open spec fn known_file_type(val: u16) -> bool {
    val == 0x0 || val == 0x1 || val == 0x2 || val == 0x3 || val == 0x4 || val == 0xFE00
        || val == 0xFEFF || val == 0xFF00 || val == 0xFFFF
}

/// The object file kind named by a known `e_type` value.
pub open spec fn spec_file_type(val: u16) -> ElfObjectFileType {
    if val == 0x0 {
        ElfObjectFileType::NoType
    } else if val == 0x1 {
        ElfObjectFileType::Rel
    } else if val == 0x2 {
        ElfObjectFileType::Exec
    } else if val == 0x3 {
        ElfObjectFileType::Dyn
    } else if val == 0x4 {
        ElfObjectFileType::Core
    } else if val == 0xFE00 {
        ElfObjectFileType::Loos
    } else if val == 0xFEFF {
        ElfObjectFileType::Hioos
    } else if val == 0xFF00 {
        ElfObjectFileType::Loproc
    } else {
        ElfObjectFileType::Hiproc
    }
}

impl ElfObjectFileType {
    /// Maps a raw `e_type` value to its kind.  Only the values named by the
    /// format are accepted.
    pub fn from_u16(val: u16) -> (r: Self)
        requires
            known_file_type(val),
        ensures
            r == spec_file_type(val),
    {
        if val == 0x0 {
            ElfObjectFileType::NoType
        } else if val == 0x1 {
            ElfObjectFileType::Rel
        } else if val == 0x2 {
            ElfObjectFileType::Exec
        } else if val == 0x3 {
            ElfObjectFileType::Dyn
        } else if val == 0x4 {
            ElfObjectFileType::Core
        } else if val == 0xFE00 {
            ElfObjectFileType::Loos
        } else if val == 0xFEFF {
            ElfObjectFileType::Hioos
        } else if val == 0xFF00 {
            ElfObjectFileType::Loproc
        } else {
            ElfObjectFileType::Hiproc
        }
    }
}

/// True when the buffer begins with the ELF identification bytes
/// `0x7F 'E' 'L' 'F'`.
pub open spec fn magic_ok(s: Seq<u8>) -> bool {
    s.len() >= 4 && s[0] == 0x7f && s[1] == 0x45 && s[2] == 0x4c && s[3] == 0x46
}

/// Classifies a buffer for header decoding: the failure kind it is rejected
/// with, or `None` when the full 64-byte header can be decoded.  A buffer
/// whose first four bytes are present and wrong is rejected for its magic
/// before its length is considered.
pub open spec fn spec_header_error(s: Seq<u8>) -> Option<ElfHeaderParseError> {
    if s.len() >= 4 && !magic_ok(s) {
        Some(ElfHeaderParseError::InvalidMagicBytes)
    } else if s.len() < 64 {
        Some(ElfHeaderParseError::TruncatedInput)
    } else {
        None
    }
}

/// True when `h` holds exactly the fields stored in the first 64 bytes of
/// `s`: the 16-byte identification block followed by the thirteen ordered
/// fields at their fixed on-disk offsets.
pub open spec fn header_matches(h: ElfHeader, s: Seq<u8>) -> bool {
    &&& h.e_ident@ == s.subrange(0, 16)
    &&& h.e_type == le16(s, 16)
    &&& h.e_machine == le16(s, 18)
    &&& h.e_version == le32(s, 20)
    &&& h.e_entry == le64(s, 24)
    &&& h.e_phoff == le64(s, 32)
    &&& h.e_shoff == le64(s, 40)
    &&& h.e_flags == le32(s, 48)
    &&& h.e_ehsize == le16(s, 52)
    &&& h.e_phentsize == le16(s, 54)
    &&& h.e_phnum == le16(s, 56)
    &&& h.e_shentsize == le16(s, 58)
    &&& h.e_shnum == le16(s, 60)
    &&& h.e_shstrndx == le16(s, 62)
}

/// A buffer shorter than the 16-byte identification block is always
/// rejected, with `InvalidMagicBytes` when its first four bytes are present
/// and wrong and with `TruncatedInput` otherwise; it is never decoded.
pub proof fn lemma_short_buffer_rejected(s: Seq<u8>)
    requires
        s.len() < 16,
    ensures
        spec_header_error(s) == Some(ElfHeaderParseError::InvalidMagicBytes)
            || spec_header_error(s) == Some(ElfHeaderParseError::TruncatedInput),
{
}

/// A buffer whose first four bytes are not the ELF identification bytes is
/// rejected with `InvalidMagicBytes`, whatever the rest of it holds.
pub proof fn lemma_bad_magic_rejected(s: Seq<u8>)
    requires
        s.len() >= 4,
        !magic_ok(s),
    ensures
        spec_header_error(s) == Some(ElfHeaderParseError::InvalidMagicBytes),
{
}

impl ElfHeader {
    /// Decodes the 64-byte file header from the start of the buffer.
    /// Succeeds exactly when the magic bytes match and the buffer holds the
    /// whole header; on success every field equals the value stored at its
    /// fixed on-disk offset.
    pub fn from_bytes(data: &[u8]) -> (r: Result<Self, ElfHeaderParseError>)
        ensures
            r is Ok <==> spec_header_error(data@) is None,
            r matches Ok(h) ==> header_matches(h, data@),
            r matches Err(e) ==> spec_header_error(data@) == Some(e),
    {
        if data.len() >= 4 {
            if !(data[0] == 0x7f && data[1] == 0x45 && data[2] == 0x4c && data[3] == 0x46) {
                return Err(ElfHeaderParseError::InvalidMagicBytes);
            }
        }
        if data.len() < 64 {
            return Err(ElfHeaderParseError::TruncatedInput);
        }
        let e_ident: [u8; 16] = [
            data[0], data[1], data[2], data[3], data[4], data[5], data[6], data[7], data[8],
            data[9], data[10], data[11], data[12], data[13], data[14], data[15],
        ];
        let (e_type, cur) = read_u16(data, 16)?;
        let (e_machine, cur) = read_u16(data, cur)?;
        let (e_version, cur) = read_u32(data, cur)?;
        let (e_entry, cur) = read_u64(data, cur)?;
        let (e_phoff, cur) = read_u64(data, cur)?;
        let (e_shoff, cur) = read_u64(data, cur)?;
        let (e_flags, cur) = read_u32(data, cur)?;
        let (e_ehsize, cur) = read_u16(data, cur)?;
        let (e_phentsize, cur) = read_u16(data, cur)?;
        let (e_phnum, cur) = read_u16(data, cur)?;
        let (e_shentsize, cur) = read_u16(data, cur)?;
        let (e_shnum, cur) = read_u16(data, cur)?;
        let (e_shstrndx, _cur) = read_u16(data, cur)?;
        let header = ElfHeader {
            e_ident,
            e_type,
            e_machine,
            e_version,
            e_entry,
            e_phoff,
            e_shoff,
            e_flags,
            e_ehsize,
            e_phentsize,
            e_phnum,
            e_shentsize,
            e_shnum,
            e_shstrndx,
        };
        proof {
            assert(header.e_ident@ =~= data@.subrange(0, 16));
        }
        Ok(header)
    }
}

} // verus!
