//! The facade over a single ELF buffer: owns the decoded header alongside
//! a borrowed view of the bytes, and composes header decoding, section
//! iteration, name resolution, lookup by name and symbol iteration.

use vstd::prelude::*;

use crate::header::{header_matches, spec_header_error, ElfHeader};
use crate::section::{read_section_at, spec_section_idx, ElfSection, SectionIter};
use crate::strtab::{resolve_name_at, spec_resolve_name};
use crate::symbol::SymbolIter;
use crate::ElfHeaderParseError;

verus! {

/// The name of section `sec` of the buffer `s` under header `h`: its
/// `sh_name` offset resolved against the section header string table that
/// `e_shstrndx` designates.
pub open spec fn spec_section_name(s: Seq<u8>, h: ElfHeader, sec: ElfSection) -> Result<
    Seq<char>,
    ElfHeaderParseError,
> {
    match spec_section_idx(s, h, h.e_shstrndx as int) {
        Err(e) => Err(e),
        Ok(strtab) => spec_resolve_name(s, strtab.sh_offset + sec.sh_name),
    }
}

/// The first section at an index at or after `k` whose resolved name
/// equals `name`, in on-disk order; `Ok(None)` when no section at or after
/// `k` matches, and the first decode or resolution failure otherwise.
pub open spec fn spec_lookup_from(s: Seq<u8>, h: ElfHeader, name: Seq<char>, k: int) -> Result<
    Option<ElfSection>,
    ElfHeaderParseError,
>
    decreases h.e_shnum - k,
{
    if !(0 <= k < h.e_shnum) {
        Ok(None)
    } else {
        match spec_section_idx(s, h, k) {
            Err(e) => Err(e),
            Ok(sec) => match spec_section_name(s, h, sec) {
                Err(e) => Err(e),
                Ok(n) => if n == name {
                    Ok(Some(sec))
                } else {
                    spec_lookup_from(s, h, name, k + 1)
                },
            },
        }
    }
}

/// The section named `.symtab`, or `MissingSection` when the buffer has
/// none.
pub open spec fn spec_symtab_section(s: Seq<u8>, h: ElfHeader) -> Result<
    ElfSection,
    ElfHeaderParseError,
> {
    match spec_lookup_from(s, h, ".symtab"@, 0) {
        Err(e) => Err(e),
        Ok(opt) => match opt {
            Option::Some(sec) => Ok(sec),
            Option::None => Err(ElfHeaderParseError::MissingSection),
        },
    }
}

/// The symbol table of the buffer: the `.symtab` section paired with the
/// string table section its `sh_link` references.  `MalformedSymbolTable`
/// when the declared entry size is zero or does not divide the declared
/// table size.
pub open spec fn spec_symbol_table(s: Seq<u8>, h: ElfHeader) -> Result<
    (ElfSection, ElfSection),
    ElfHeaderParseError,
> {
    match spec_symtab_section(s, h) {
        Err(e) => Err(e),
        Ok(sym) => if sym.sh_entsize == 0 || sym.sh_size % sym.sh_entsize != 0 {
            Err(ElfHeaderParseError::MalformedSymbolTable)
        } else {
            match spec_section_idx(s, h, sym.sh_link as int) {
                Err(e) => Err(e),
                Ok(strtab) => Ok((sym, strtab)),
            }
        },
    }
}

/// Looking up a name that no section bears finds nothing rather than
/// failing: when every section at an index at or after `k` has a resolvable
/// name different from `name`, the lookup returns no value and no error.
pub proof fn lemma_lookup_absent(s: Seq<u8>, h: ElfHeader, name: Seq<char>, k: int)
    requires
        0 <= k <= h.e_shnum,
        forall|j: int| k <= j < h.e_shnum ==> (#[trigger] spec_section_idx(s, h, j) matches Ok(sec)
            && spec_section_name(s, h, sec) matches Ok(n) && n != name),
    ensures
        spec_lookup_from(s, h, name, k) == Ok::<Option<ElfSection>, ElfHeaderParseError>(None),
    decreases h.e_shnum - k,
{
    if k < h.e_shnum {
        assert(spec_section_idx(s, h, k) matches Ok(sec) && spec_section_name(s, h, sec)
            matches Ok(n) && n != name);
        lemma_lookup_absent(s, h, name, k + 1);
    }
}

/// A symbol table whose declared entry size is zero is reported as
/// malformed — never used as a divisor.
pub proof fn lemma_zero_entsize_malformed(s: Seq<u8>, h: ElfHeader, sym: ElfSection)
    requires
        spec_symtab_section(s, h) == Ok::<ElfSection, ElfHeaderParseError>(sym),
        sym.sh_entsize == 0,
    ensures
        spec_symbol_table(s, h) == Err::<(ElfSection, ElfSection), ElfHeaderParseError>(
            ElfHeaderParseError::MalformedSymbolTable,
        ),
{
}

/// A decoded ELF file: the header, kept beside a borrowed view of the
/// original buffer.  All iterators and lookups read from that buffer and
/// never copy it.
#[derive(Debug)]
pub struct ElfFile<'a> {
    pub header: ElfHeader,
    /// The borrowed file buffer that every lookup reads from.
    pub data: &'a [u8],
}

impl<'a> ElfFile<'a> {
    /// The bytes of the underlying buffer.
    pub open spec fn spec_data(&self) -> Seq<u8> {
        self.data@
    }

    /// Validates and decodes the header, keeping the buffer for every
    /// later lookup.  Succeeds exactly when header decoding succeeds.
    pub fn from_bytes(data: &'a [u8]) -> (r: Result<Self, ElfHeaderParseError>)
        ensures
            r is Ok <==> spec_header_error(data@) is None,
            r matches Ok(f) ==> header_matches(f.header, data@) && f.spec_data() == data@,
            r matches Err(e) ==> spec_header_error(data@) == Some(e),
    {
        let header = ElfHeader::from_bytes(data)?;
        Ok(ElfFile { header, data })
    }

    /// A fresh cursor over the section header table, starting at entry 0.
    /// Every call returns an independent cursor, so traversal always
    /// restarts from the beginning.
    pub fn sections(&self) -> (it: SectionIter<'a>)
        ensures
            it.data@ == self.spec_data(),
            it.shoff == self.header.e_shoff,
            it.total == self.header.e_shnum,
            it.current == 0,
    {
        SectionIter { data: self.data, shoff: self.header.e_shoff, total: self.header.e_shnum, current: 0 }
    }

    /// Decodes entry `idx` of the section header table: `MissingSection`
    /// when `idx` is not an index of the table, `TruncatedInput` when the
    /// record runs past the end of the buffer.
    pub fn section_at(&self, idx: u16) -> (r: Result<ElfSection, ElfHeaderParseError>)
        ensures
            r == spec_section_idx(self.spec_data(), self.header, idx as int),
    {
        if idx >= self.header.e_shnum {
            return Err(ElfHeaderParseError::MissingSection);
        }
        // The record offset fits in 64 bits only when it lies inside the
        // buffer; the comparison is made wide enough never to overflow.
        let end: u128 = self.header.e_shoff as u128 + 64u128 * (idx as u128) + 64u128;
        if end > self.data.len() as u128 {
            return Err(ElfHeaderParseError::TruncatedInput);
        }
        let off: u64 = self.header.e_shoff + 64u64 * (idx as u64);
        read_section_at(self.data, off as usize)
    }

    /// Resolves a section's name against the section header string table
    /// designated by `e_shstrndx`: the bytes at `sh_offset + sh_name` up
    /// to the next null terminator, decoded as UTF-8 text.
    pub fn section_name(&self, section: &ElfSection) -> (r: Result<String, ElfHeaderParseError>)
        ensures
            r matches Ok(n) ==> spec_section_name(self.spec_data(), self.header, *section)
                == Ok::<Seq<char>, ElfHeaderParseError>(n@),
            r matches Err(e) ==> spec_section_name(self.spec_data(), self.header, *section)
                == Err::<Seq<char>, ElfHeaderParseError>(e),
    {
        let strtab = self.section_at(self.header.e_shstrndx)?;
        if strtab.sh_offset > u64::MAX - section.sh_name as u64 {
            // The name's start lies past any addressable offset, so no
            // terminator can follow it inside the buffer.
            let len = self.data.len();
            proof {
                assert(len <= usize::MAX);
                assert(strtab.sh_offset + section.sh_name > u64::MAX >= usize::MAX);
            }
            return Err(ElfHeaderParseError::TruncatedInput);
        }
        resolve_name_at(self.data, strtab.sh_offset + section.sh_name as u64)
    }

    /// Finds the first section, in on-disk order, whose resolved name
    /// equals `name`; `Ok(None)` when no section matches.  A name that
    /// fails to decode or resolve surfaces as that failure.
    pub fn lookup_section(&self, name: &str) -> (r: Result<
        Option<ElfSection>,
        ElfHeaderParseError,
    >)
        ensures
            r == spec_lookup_from(self.spec_data(), self.header, name@, 0),
    {
        let query: String = name.to_owned();
        let total: u16 = self.header.e_shnum;
        let mut k: u16 = 0;
        while k < total
            invariant
                k <= total,
                total == self.header.e_shnum,
                query@ == name@,
                spec_lookup_from(self.spec_data(), self.header, name@, 0) == spec_lookup_from(
                    self.spec_data(),
                    self.header,
                    name@,
                    k as int,
                ),
            decreases total - k,
        {
            let sec = match self.section_at(k) {
                Ok(sec) => sec,
                Err(e) => {
                    return Err(e);
                },
            };
            let n = match self.section_name(&sec) {
                Ok(n) => n,
                Err(e) => {
                    return Err(e);
                },
            };
            if n == query {
                return Ok(Some(sec));
            }
            k = k + 1;
        }
        Ok(None)
    }

    /// Locates the `.symtab` section and returns a cursor over its
    /// records, paired with the string table its `sh_link` references.
    /// `MissingSection` when no `.symtab` section exists or the link does
    /// not resolve, `MalformedSymbolTable` when the declared entry size is
    /// zero or does not divide the declared table size.
    pub fn symbol_table(&self) -> (r: Result<SymbolIter<'a>, ElfHeaderParseError>)
        ensures
            r matches Ok(it) ==> spec_symbol_table(self.spec_data(), self.header) matches Ok(p)
                && it.data@ == self.spec_data() && it.off == p.0.sh_offset && it.total
                == p.0.sh_size / p.0.sh_entsize && it.current == 0 && it.strtab == p.1,
            r matches Err(e) ==> spec_symbol_table(self.spec_data(), self.header) == Err::<
                (ElfSection, ElfSection),
                ElfHeaderParseError,
            >(e),
    {
        let sym_sec = match self.lookup_section(".symtab") {
            Ok(Some(sec)) => sec,
            Ok(None) => {
                return Err(ElfHeaderParseError::MissingSection);
            },
            Err(e) => {
                return Err(e);
            },
        };
        if sym_sec.sh_entsize == 0 || sym_sec.sh_size % sym_sec.sh_entsize != 0 {
            return Err(ElfHeaderParseError::MalformedSymbolTable);
        }
        let total: u64 = sym_sec.sh_size / sym_sec.sh_entsize;
        if sym_sec.sh_link >= self.header.e_shnum as u32 {
            return Err(ElfHeaderParseError::MissingSection);
        }
        let strtab = self.section_at(sym_sec.sh_link as u16)?;
        Ok(SymbolIter {
            data: self.data,
            off: sym_sec.sh_offset,
            total,
            current: 0,
            strtab,
        })
    }
}

} // verus!
