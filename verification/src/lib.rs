//! A read-only decoder for 64-bit little-endian ELF object files.
//!
//! Given an in-memory byte buffer, the library decodes the file header,
//! iterates over the section header table, resolves section names through
//! the string table, and iterates over the symbol table.  Every decode is
//! bounds-checked: malformed or truncated input is reported through
//! [`ElfHeaderParseError`], never by a panic or an out-of-bounds read.

use vstd::prelude::*;

mod cursor;
mod file;
mod header;
mod section;
mod strtab;
mod symbol;

pub use cursor::{le16, le32, le64, read_u16, read_u32, read_u64, read_u8};
pub use file::{
    lemma_lookup_absent, lemma_zero_entsize_malformed, spec_lookup_from, spec_section_name,
    spec_symbol_table, spec_symtab_section, ElfFile,
};
pub use header::{
    header_matches, known_file_type, lemma_bad_magic_rejected, lemma_short_buffer_rejected,
    magic_ok, spec_file_type, spec_header_error, ElfHeader, ElfObjectFileType,
};
pub use section::{lemma_table_in_bounds, spec_section_at, spec_section_idx, ElfSection, SectionIter};
pub use strtab::{lemma_resolve_name_exact, nul_scan, resolve_name_at, spec_resolve_name};
pub use symbol::{spec_symbol_at, ElfSymbol, SymbolIter};

verus! {

/// Why a decode failed.  Every operation of the library reports malformed
/// input through one of these kinds rather than panicking.
#[derive(Debug, Clone, Copy, PartialEq, Eq, Structural)]
pub enum ElfHeaderParseError {
    /// The buffer does not begin with the ELF identification bytes.
    InvalidMagicBytes,
    /// A fixed-width read would run past the end of the buffer.
    TruncatedInput,
    /// A referenced section index does not resolve to an existing section.
    MissingSection,
    /// A resolved name's bytes are not valid UTF-8 text.
    InvalidEncoding,
    /// The symbol table's declared entry size is zero or does not divide
    /// its declared size.
    MalformedSymbolTable,
}

} // verus!
