//! Decoding of the section header table: fixed 64-byte records located at
//! `e_shoff`, iterated lazily with an independent cursor per iterator.

use vstd::prelude::*;

use crate::cursor::{le32, le64, read_u32, read_u64};
use crate::header::ElfHeader;
use crate::ElfHeaderParseError;

verus! {

/// One decoded section header record.
#[derive(Debug, Clone, Copy, PartialEq, Eq, Structural)]
pub struct ElfSection {
    pub sh_name: u32,
    pub sh_type: u32,
    pub sh_flags: u64,
    pub sh_addr: u64,
    pub sh_offset: u64,
    pub sh_size: u64,
    pub sh_link: u32,
    pub sh_info: u32,
    pub sh_addralign: u64,
    pub sh_entsize: u64,
}

/// The section record stored in the 64 bytes of `s` starting at `off`:
/// ten fields in on-disk order, each at its fixed offset.
pub open spec fn spec_section_at(s: Seq<u8>, off: int) -> ElfSection
    recommends
        0 <= off,
        off + 64 <= s.len(),
{
    ElfSection {
        sh_name: le32(s, off),
        sh_type: le32(s, off + 4),
        sh_flags: le64(s, off + 8),
        sh_addr: le64(s, off + 16),
        sh_offset: le64(s, off + 24),
        sh_size: le64(s, off + 32),
        sh_link: le32(s, off + 40),
        sh_info: le32(s, off + 44),
        sh_addralign: le64(s, off + 48),
        sh_entsize: le64(s, off + 56),
    }
}

/// Looks up entry `k` of the section header table described by `h`:
/// `MissingSection` when `k` is not an index of the table, `TruncatedInput`
/// when the record's 64 bytes run past the end of the buffer, and the
/// decoded record otherwise.
pub open spec fn spec_section_idx(s: Seq<u8>, h: ElfHeader, k: int) -> Result<
    ElfSection,
    ElfHeaderParseError,
> {
    if !(0 <= k < h.e_shnum) {
        Err(ElfHeaderParseError::MissingSection)
    } else if h.e_shoff + 64 * k + 64 > s.len() {
        Err(ElfHeaderParseError::TruncatedInput)
    } else {
        Ok(spec_section_at(s, h.e_shoff + 64 * k))
    }
}

/// When the whole section header table lies inside the buffer, every one
/// of its `e_shnum` entries decodes successfully: an iterator over the
/// table yields exactly `e_shnum` records before it terminates.
pub proof fn lemma_table_in_bounds(s: Seq<u8>, h: ElfHeader, k: int)
    requires
        0 <= k < h.e_shnum,
        h.e_shoff + 64 * h.e_shnum <= s.len(),
    ensures
        spec_section_idx(s, h, k) == Ok::<ElfSection, ElfHeaderParseError>(
            spec_section_at(s, h.e_shoff + 64 * k),
        ),
{
    assert(64 * k + 64 <= 64 * h.e_shnum);
}

/// Decodes the 64-byte section record at byte offset `off`, or fails with
/// `TruncatedInput` when it runs past the end of the buffer.
pub(crate) fn read_section_at(data: &[u8], off: usize) -> (r: Result<
    ElfSection,
    ElfHeaderParseError,
>)
    ensures
        off + 64 <= data@.len() ==> r == Ok::<ElfSection, ElfHeaderParseError>(
            spec_section_at(data@, off as int),
        ),
        off + 64 > data@.len() ==> r == Err::<ElfSection, ElfHeaderParseError>(
            ElfHeaderParseError::TruncatedInput,
        ),
{
    if !(data.len() >= 64 && off <= data.len() - 64) {
        return Err(ElfHeaderParseError::TruncatedInput);
    }
    let (sh_name, cur) = read_u32(data, off)?;
    let (sh_type, cur) = read_u32(data, cur)?;
    let (sh_flags, cur) = read_u64(data, cur)?;
    let (sh_addr, cur) = read_u64(data, cur)?;
    let (sh_offset, cur) = read_u64(data, cur)?;
    let (sh_size, cur) = read_u64(data, cur)?;
    let (sh_link, cur) = read_u32(data, cur)?;
    let (sh_info, cur) = read_u32(data, cur)?;
    let (sh_addralign, cur) = read_u64(data, cur)?;
    let (sh_entsize, _cur) = read_u64(data, cur)?;
    Ok(ElfSection {
        sh_name,
        sh_type,
        sh_flags,
        sh_addr,
        sh_offset,
        sh_size,
        sh_link,
        sh_info,
        sh_addralign,
        sh_entsize,
    })
}

/// A lazy, restartable cursor over the section header table.  Each
/// instance carries its own position, so independent traversals of the
/// same buffer never interfere.
pub struct SectionIter<'a> {
    /// The whole file buffer.
    pub data: &'a [u8],
    /// Byte offset of the start of the section header table (`e_shoff`).
    pub shoff: u64,
    /// Number of entries in the table (`e_shnum`).
    pub total: u16,
    /// Index of the next entry to decode.
    pub current: u16,
}

impl<'a> SectionIter<'a> {
    /// Decodes the next section record and advances, returns `Ok(None)`
    /// once all `total` entries have been produced, and fails with
    /// `TruncatedInput` — terminating the sequence — when the next record
    /// runs past the end of the buffer.
    pub fn next(&mut self) -> (r: Result<Option<ElfSection>, ElfHeaderParseError>)
        ensures
            final(self).data == old(self).data,
            final(self).shoff == old(self).shoff,
            final(self).total == old(self).total,
            old(self).current >= old(self).total ==> r == Ok::<
                Option<ElfSection>,
                ElfHeaderParseError,
            >(None) && final(self).current == old(self).current,
            old(self).current < old(self).total && old(self).shoff + 64 * old(self).current + 64
                <= old(self).data@.len() ==> r == Ok::<Option<ElfSection>, ElfHeaderParseError>(
                Some(spec_section_at(old(self).data@, old(self).shoff + 64 * old(self).current)),
            ) && final(self).current == old(self).current + 1,
            old(self).current < old(self).total && old(self).shoff + 64 * old(self).current + 64
                > old(self).data@.len() ==> r == Err::<Option<ElfSection>, ElfHeaderParseError>(
                ElfHeaderParseError::TruncatedInput,
            ) && final(self).current == final(self).total,
    {
        if self.current >= self.total {
            return Ok(None);
        }
        // The record offset fits in 64 bits only when it lies inside the
        // buffer; the comparison is made wide enough never to overflow.
        let end: u128 = self.shoff as u128 + 64u128 * (self.current as u128) + 64u128;
        if end > self.data.len() as u128 {
            self.current = self.total;
            return Err(ElfHeaderParseError::TruncatedInput);
        }
        let off: u64 = self.shoff + 64u64 * (self.current as u64);
        let section = read_section_at(self.data, off as usize)?;
        self.current = self.current + 1;
        Ok(Some(section))
    }
}

} // verus!
