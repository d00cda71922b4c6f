//! Decoding of symbol table entries: fixed 24-byte records, iterated
//! lazily, with names resolved through the string table section that the
//! symbol table's `sh_link` field references.

use vstd::prelude::*;

use crate::cursor::{le16, le32, le64, read_u16, read_u32, read_u64, read_u8};
use crate::section::ElfSection;
use crate::strtab::{resolve_name_at, spec_resolve_name};
use crate::ElfHeaderParseError;

verus! {

/// One decoded symbol table entry.  Binding and kind are packed into the
/// single on-disk `st_info` byte; [`ElfSymbol::binding`] and
/// [`ElfSymbol::symbol_type`] derive them from it.
#[derive(Debug, Clone, Copy, PartialEq, Eq, Structural)]
pub struct ElfSymbol {
    pub st_name: u32,
    pub st_info: u8,
    pub st_other: u8,
    pub st_shndx: u16,
    pub st_value: u64,
    pub st_size: u64,
}

/// The symbol record stored in the 24 bytes of `s` starting at `off`:
/// six fields in on-disk order, each at its fixed offset.
pub open spec fn spec_symbol_at(s: Seq<u8>, off: int) -> ElfSymbol
    recommends
        0 <= off,
        off + 24 <= s.len(),
{
    ElfSymbol {
        st_name: le32(s, off),
        st_info: s[off + 4],
        st_other: s[off + 5],
        st_shndx: le16(s, off + 6),
        st_value: le64(s, off + 8),
        st_size: le64(s, off + 16),
    }
}

/// Decodes the 24-byte symbol record at byte offset `off`, or fails with
/// `TruncatedInput` when it runs past the end of the buffer.
pub(crate) fn read_symbol_at(data: &[u8], off: usize) -> (r: Result<
    ElfSymbol,
    ElfHeaderParseError,
>)
    ensures
        off + 24 <= data@.len() ==> r == Ok::<ElfSymbol, ElfHeaderParseError>(
            spec_symbol_at(data@, off as int),
        ),
        off + 24 > data@.len() ==> r == Err::<ElfSymbol, ElfHeaderParseError>(
            ElfHeaderParseError::TruncatedInput,
        ),
{
    if !(data.len() >= 24 && off <= data.len() - 24) {
        return Err(ElfHeaderParseError::TruncatedInput);
    }
    let (st_name, cur) = read_u32(data, off)?;
    let (st_info, cur) = read_u8(data, cur)?;
    let (st_other, cur) = read_u8(data, cur)?;
    let (st_shndx, cur) = read_u16(data, cur)?;
    let (st_value, cur) = read_u64(data, cur)?;
    let (st_size, _cur) = read_u64(data, cur)?;
    Ok(ElfSymbol { st_name, st_info, st_other, st_shndx, st_value, st_size })
}

impl ElfSymbol {
    /// The symbol's binding: the high four bits of the `st_info` byte.
    pub fn binding(&self) -> (r: u8)
        ensures
            r == self.st_info / 16,
    {
        self.st_info / 16
    }

    /// The symbol's kind: the low four bits of the `st_info` byte.
    pub fn symbol_type(&self) -> (r: u8)
        ensures
            r == self.st_info % 16,
    {
        self.st_info % 16
    }
}

/// A lazy cursor over the records of a symbol table section.  Each
/// instance carries its own position; the linked string table section is
/// kept alongside so that symbol names can be resolved.
pub struct SymbolIter<'a> {
    /// The whole file buffer.
    pub data: &'a [u8],
    /// Byte offset of the first record (the symbol table's `sh_offset`).
    pub off: u64,
    /// Number of records (the table's `sh_size / sh_entsize`).
    pub total: u64,
    /// Index of the next record to decode.
    pub current: u64,
    /// The string table section referenced by the symbol table's
    /// `sh_link`, against which symbol names resolve.
    pub strtab: ElfSection,
}

impl<'a> SymbolIter<'a> {
    /// Decodes the next symbol record at the fixed 24-byte stride and
    /// advances, returns `Ok(None)` once all `total` records have been
    /// produced, and fails with `TruncatedInput` — terminating the
    /// sequence — when the next record runs past the end of the buffer.
    pub fn next(&mut self) -> (r: Result<Option<ElfSymbol>, ElfHeaderParseError>)
        ensures
            final(self).data == old(self).data,
            final(self).off == old(self).off,
            final(self).total == old(self).total,
            final(self).strtab == old(self).strtab,
            old(self).current >= old(self).total ==> r == Ok::<
                Option<ElfSymbol>,
                ElfHeaderParseError,
            >(None) && final(self).current == old(self).current,
            old(self).current < old(self).total && old(self).off + 24 * old(self).current + 24
                <= old(self).data@.len() ==> r == Ok::<Option<ElfSymbol>, ElfHeaderParseError>(
                Some(spec_symbol_at(old(self).data@, old(self).off + 24 * old(self).current)),
            ) && final(self).current == old(self).current + 1,
            old(self).current < old(self).total && old(self).off + 24 * old(self).current + 24
                > old(self).data@.len() ==> r == Err::<Option<ElfSymbol>, ElfHeaderParseError>(
                ElfHeaderParseError::TruncatedInput,
            ) && final(self).current == final(self).total,
    {
        if self.current >= self.total {
            return Ok(None);
        }
        // The record offset fits in 64 bits only when it lies inside the
        // buffer; the comparison is made wide enough never to overflow.
        let end: u128 = self.off as u128 + 24u128 * (self.current as u128) + 24u128;
        if end > self.data.len() as u128 {
            self.current = self.total;
            return Err(ElfHeaderParseError::TruncatedInput);
        }
        let off: u64 = self.off + 24u64 * self.current;
        let symbol = read_symbol_at(self.data, off as usize)?;
        self.current = self.current + 1;
        Ok(Some(symbol))
    }

    /// Resolves a symbol's name against the linked string table section:
    /// the bytes at `strtab.sh_offset + st_name` up to the next null
    /// terminator, decoded as UTF-8 text.
    pub fn name_of(&self, symbol: &ElfSymbol) -> (r: Result<String, ElfHeaderParseError>)
        ensures
            r matches Ok(n) ==> spec_resolve_name(
                self.data@,
                self.strtab.sh_offset + symbol.st_name,
            ) == Ok::<Seq<char>, ElfHeaderParseError>(n@),
            r matches Err(e) ==> spec_resolve_name(
                self.data@,
                self.strtab.sh_offset + symbol.st_name,
            ) == Err::<Seq<char>, ElfHeaderParseError>(e),
    {
        if self.strtab.sh_offset > u64::MAX - symbol.st_name as u64 {
            // The name's start lies past any addressable offset, so no
            // terminator can follow it inside the buffer.
            let len = self.data.len();
            proof {
                assert(len <= usize::MAX);
                assert(self.strtab.sh_offset + symbol.st_name > u64::MAX >= usize::MAX);
                assert(self.strtab.sh_offset + symbol.st_name >= self.data@.len());
            }
            return Err(ElfHeaderParseError::TruncatedInput);
        }
        resolve_name_at(self.data, self.strtab.sh_offset + symbol.st_name as u64)
    }
}

} // verus!
