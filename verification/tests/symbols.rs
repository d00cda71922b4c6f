use elf_reader::{ElfFile, ElfHeaderParseError};

fn put(v: &mut Vec<u8>, off: usize, bytes: &[u8]) {
    v[off..off + bytes.len()].copy_from_slice(bytes);
}

fn header_bytes(shoff: u64, shnum: u16, shstrndx: u16) -> Vec<u8> {
    let mut v = vec![0u8; 64];
    v[0] = 0x7f;
    v[1] = b'E';
    v[2] = b'L';
    v[3] = b'F';
    v[4] = 2;
    v[5] = 1;
    put(&mut v, 16, &1u16.to_le_bytes());
    put(&mut v, 40, &shoff.to_le_bytes());
    put(&mut v, 58, &64u16.to_le_bytes());
    put(&mut v, 60, &shnum.to_le_bytes());
    put(&mut v, 62, &shstrndx.to_le_bytes());
    v
}

fn section_record(name: u32, offset: u64, size: u64, link: u32, entsize: u64) -> Vec<u8> {
    let mut r = vec![0u8; 64];
    put(&mut r, 0, &name.to_le_bytes());
    put(&mut r, 4, &2u32.to_le_bytes());
    put(&mut r, 24, &offset.to_le_bytes());
    put(&mut r, 32, &size.to_le_bytes());
    put(&mut r, 40, &link.to_le_bytes());
    put(&mut r, 56, &entsize.to_le_bytes());
    r
}

fn symbol_record(name: u32, info: u8, other: u8, shndx: u16, value: u64, size: u64) -> Vec<u8> {
    let mut r = vec![0u8; 24];
    put(&mut r, 0, &name.to_le_bytes());
    r[4] = info;
    r[5] = other;
    put(&mut r, 6, &shndx.to_le_bytes());
    put(&mut r, 8, &value.to_le_bytes());
    put(&mut r, 16, &size.to_le_bytes());
    r
}

/// A file whose `.symtab` has `sh_entsize` 24 and `sh_size` 72: exactly
/// three records, whose names live in the `.strtab` section that the
/// symbol table's `sh_link` references.
fn symtab_file(entsize: u64) -> Vec<u8> {
    let mut v = vec![0u8; 400];
    let header = header_bytes(192, 3, 2);
    put(&mut v, 0, &header);
    // Section header string table blob at 64: "\0.symtab\0.strtab\0.shstrtab\0".
    put(&mut v, 64, b"\x00.symtab\x00.strtab\x00.shstrtab\x00");
    // Symbol name string table blob at 96: "\0alpha\0beta\0gamma\0".
    put(&mut v, 96, b"\x00alpha\x00beta\x00gamma\x00");
    // Three 24-byte symbol records at 120.
    put(&mut v, 120, &symbol_record(1, 0x12, 0, 1, 0x1000, 4));
    put(&mut v, 144, &symbol_record(7, 0x21, 3, 2, 0x2000, 8));
    put(&mut v, 168, &symbol_record(12, 0x10, 0, 0, 0, 0));
    // Section header table at 192.
    put(&mut v, 192, &section_record(1, 120, 72, 1, entsize)); // .symtab
    put(&mut v, 256, &section_record(9, 96, 18, 0, 0)); // .strtab
    put(&mut v, 320, &section_record(17, 64, 27, 0, 0)); // .shstrtab
    v
}

#[test]
fn symtab_with_entsize_24_and_size_72_yields_three_symbols() {
    let v = symtab_file(24);
    let file = ElfFile::from_bytes(&v).unwrap();
    let mut iter = file.symbol_table().unwrap();
    let mut count = 0;
    while let Some(_) = iter.next().unwrap() {
        count += 1;
    }
    assert_eq!(count, 3);
    assert!(iter.next().unwrap().is_none());
}

#[test]
fn symbol_fields_decode_exactly() {
    let v = symtab_file(24);
    let file = ElfFile::from_bytes(&v).unwrap();
    let mut iter = file.symbol_table().unwrap();
    let first = iter.next().unwrap().unwrap();
    assert_eq!(first.st_name, 1);
    assert_eq!(first.st_info, 0x12);
    assert_eq!(first.st_other, 0);
    assert_eq!(first.st_shndx, 1);
    assert_eq!(first.st_value, 0x1000);
    assert_eq!(first.st_size, 4);
    let second = iter.next().unwrap().unwrap();
    assert_eq!(second.st_name, 7);
    assert_eq!(second.st_info, 0x21);
    assert_eq!(second.st_other, 3);
    assert_eq!(second.st_shndx, 2);
    assert_eq!(second.st_value, 0x2000);
    assert_eq!(second.st_size, 8);
}

#[test]
fn symbol_binding_and_type_derive_from_info_byte() {
    let v = symtab_file(24);
    let file = ElfFile::from_bytes(&v).unwrap();
    let mut iter = file.symbol_table().unwrap();
    let first = iter.next().unwrap().unwrap();
    // st_info 0x12: binding 1 in the high four bits, kind 2 in the low.
    assert_eq!(first.binding(), 1);
    assert_eq!(first.symbol_type(), 2);
    let second = iter.next().unwrap().unwrap();
    assert_eq!(second.binding(), 2);
    assert_eq!(second.symbol_type(), 1);
}

#[test]
fn symbol_names_resolve_through_linked_strtab() {
    let v = symtab_file(24);
    let file = ElfFile::from_bytes(&v).unwrap();
    let mut iter = file.symbol_table().unwrap();
    let mut names = Vec::new();
    while let Some(sym) = iter.next().unwrap() {
        names.push(iter.name_of(&sym).unwrap());
    }
    assert_eq!(names, vec!["alpha", "beta", "gamma"]);
}

#[test]
fn zero_entsize_is_malformed_symbol_table() {
    let v = symtab_file(0);
    let file = ElfFile::from_bytes(&v).unwrap();
    assert!(matches!(
        file.symbol_table(),
        Err(ElfHeaderParseError::MalformedSymbolTable)
    ));
}

#[test]
fn entsize_that_does_not_divide_size_is_malformed() {
    let v = symtab_file(20);
    let file = ElfFile::from_bytes(&v).unwrap();
    assert!(matches!(
        file.symbol_table(),
        Err(ElfHeaderParseError::MalformedSymbolTable)
    ));
}

#[test]
fn missing_symtab_is_missing_section() {
    let mut v = symtab_file(24);
    // Rename the `.symtab` section so that no section bears that name.
    put(&mut v, 192, &3u32.to_le_bytes());
    let file = ElfFile::from_bytes(&v).unwrap();
    assert!(matches!(
        file.symbol_table(),
        Err(ElfHeaderParseError::MissingSection)
    ));
}

#[test]
fn out_of_range_link_is_missing_section() {
    let mut v = symtab_file(24);
    // Point the symbol table's sh_link past the section table.
    put(&mut v, 192 + 40, &7u32.to_le_bytes());
    let file = ElfFile::from_bytes(&v).unwrap();
    assert!(matches!(
        file.symbol_table(),
        Err(ElfHeaderParseError::MissingSection)
    ));
}

#[test]
fn truncated_symbol_record_fails_not_panics() {
    let mut v = symtab_file(24);
    // Move the symbol data near the end of the buffer so that the third
    // record runs past it.
    put(&mut v, 192 + 24, &350u64.to_le_bytes());
    let file = ElfFile::from_bytes(&v).unwrap();
    let mut iter = file.symbol_table().unwrap();
    assert!(iter.next().unwrap().is_some());
    assert!(iter.next().unwrap().is_some());
    assert!(matches!(
        iter.next(),
        Err(ElfHeaderParseError::TruncatedInput)
    ));
    assert!(iter.next().unwrap().is_none());
}
