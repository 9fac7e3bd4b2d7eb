//! Decoding scenarios on synthetic 64-bit ELF buffers.

use rlvd::elf::open;
use rlvd::error::FormatError;

fn set_u16(b: &mut Vec<u8>, off: usize, v: u16) {
    let x = v.to_le_bytes();
    b[off] = x[0];
    b[off + 1] = x[1];
}

fn set_u32(b: &mut Vec<u8>, off: usize, v: u32) {
    let x = v.to_le_bytes();
    for i in 0..4 {
        b[off + i] = x[i];
    }
}

fn set_u64(b: &mut Vec<u8>, off: usize, v: u64) {
    let x = v.to_le_bytes();
    for i in 0..8 {
        b[off + i] = x[i];
    }
}

const STRTAB: &[u8] = b"\0.strtab\0main\0";

/// A minimal well-formed file: section 0 NULL, section 1 `.strtab` (also
/// serving as the symbol string table), section 2 SYMTAB with one symbol
/// `main` (value 0x1000, size 8, section 1), plus `extra` NULL sections.
/// With `inline_count` false the count goes through section 0's size field;
/// with `xindex` true the string-table index goes through section 0's link
/// field.
fn sample_file(extra: usize, inline_count: bool, xindex: bool) -> Vec<u8> {
    let count = 3 + extra;
    let sh_off = 64;
    let strtab_off = sh_off + count * 64;
    let symtab_off = strtab_off + STRTAB.len();
    let total = symtab_off + 24;
    let mut b = vec![0u8; total];
    b[0] = 0x7f;
    b[1] = b'E';
    b[2] = b'L';
    b[3] = b'F';
    b[4] = 2; // 64-bit class
    b[5] = 1; // little-endian data
    set_u64(&mut b, 40, sh_off as u64);
    set_u16(&mut b, 60, if inline_count { count as u16 } else { 0 });
    set_u16(&mut b, 62, if xindex { 0xffff } else { 1 });
    if !inline_count {
        set_u64(&mut b, sh_off + 32, count as u64);
    }
    if xindex {
        set_u32(&mut b, sh_off + 40, 1);
    }
    let s1 = sh_off + 64;
    set_u32(&mut b, s1, 1);
    set_u32(&mut b, s1 + 4, 3);
    set_u64(&mut b, s1 + 24, strtab_off as u64);
    set_u64(&mut b, s1 + 32, STRTAB.len() as u64);
    let s2 = sh_off + 128;
    set_u32(&mut b, s2 + 4, 2);
    set_u64(&mut b, s2 + 24, symtab_off as u64);
    set_u64(&mut b, s2 + 32, 24);
    set_u32(&mut b, s2 + 40, 1);
    b[strtab_off..strtab_off + STRTAB.len()].copy_from_slice(STRTAB);
    set_u32(&mut b, symtab_off, 9);
    set_u16(&mut b, symtab_off + 6, 1);
    set_u64(&mut b, symtab_off + 8, 0x1000);
    set_u64(&mut b, symtab_off + 16, 8);
    b
}

#[test]
fn rejects_empty_buffer() {
    assert!(matches!(open(vec![]), Err(FormatError::NotElf)));
}

#[test]
fn rejects_short_garbage() {
    assert!(matches!(open(vec![1, 2, 3]), Err(FormatError::NotElf)));
}

#[test]
fn rejects_wrong_magic() {
    let mut b = sample_file(0, true, false);
    b[3] = b'G';
    assert!(matches!(open(b), Err(FormatError::NotElf)));
}

#[test]
fn rejects_magic_only_prefix() {
    // The magic alone, with no room for the rest of the header.
    assert!(matches!(open(b"\x7fELF".to_vec()), Err(FormatError::NotElf)));
}

#[test]
fn rejects_big_endian_declaration() {
    let mut b = sample_file(0, true, false);
    b[5] = 2;
    assert!(matches!(open(b), Err(FormatError::UnsupportedByteOrder)));
}

#[test]
fn rejects_unset_byte_order_flag() {
    let mut b = sample_file(0, true, false);
    b[5] = 0;
    assert!(matches!(open(b), Err(FormatError::UnsupportedByteOrder)));
}

#[test]
fn rejects_nobits_shstrtab() {
    let mut b = sample_file(0, true, false);
    // The section-header string table declares type 8 (NOBITS): it has no
    // file-backed bytes to read names from.
    set_u32(&mut b, 64 + 64 + 4, 8);
    assert!(matches!(open(b), Err(FormatError::NoBitsSection)));
}

#[test]
fn rejects_nobits_symbol_strtab() {
    let mut b = sample_file(1, true, false);
    // Section 3 is NOBITS; linking the symbol table's names to it fails.
    set_u32(&mut b, 64 + 3 * 64 + 4, 8);
    set_u32(&mut b, 64 + 128 + 40, 3);
    assert!(matches!(open(b), Err(FormatError::NoBitsSection)));
}

#[test]
fn inline_section_count() {
    let f = open(sample_file(0, true, false)).map_err(|e| e.message()).unwrap();
    assert_eq!(f.section_num(), 3);
    let f = open(sample_file(2, true, false)).map_err(|e| e.message()).unwrap();
    assert_eq!(f.section_num(), 5);
}

#[test]
fn extended_section_count_round_trip() {
    // Inline count field 0: the real count comes from section 0's size.
    let f = open(sample_file(0, false, false)).map_err(|e| e.message()).unwrap();
    assert_eq!(f.section_num(), 3);
    let f = open(sample_file(1, false, false)).map_err(|e| e.message()).unwrap();
    assert_eq!(f.section_num(), 4);
}

#[test]
fn rejects_table_off_past_end() {
    let mut b = sample_file(0, true, false);
    set_u64(&mut b, 40, 1 << 40);
    assert!(matches!(open(b), Err(FormatError::SectionTableOutOfRange)));
}

#[test]
fn rejects_table_span_past_end() {
    let mut b = sample_file(0, true, false);
    set_u16(&mut b, 60, 100);
    assert!(matches!(open(b), Err(FormatError::SectionTableOutOfRange)));
}

#[test]
fn rejects_huge_extended_count() {
    let mut b = sample_file(0, false, false);
    set_u64(&mut b, 64 + 32, u64::MAX);
    assert!(matches!(open(b), Err(FormatError::SectionTableOutOfRange)));
}

#[test]
fn extended_strtab_index_round_trip() {
    // Sentinel string-table index: names resolve through section 0's link.
    let f = open(sample_file(0, true, true)).map_err(|e| e.message()).unwrap();
    assert_eq!(f.section_name(1).unwrap(), b".strtab".to_vec());
}

#[test]
fn rejects_strtab_index_out_of_range() {
    let mut b = sample_file(0, true, false);
    set_u16(&mut b, 62, 7);
    assert!(matches!(open(b), Err(FormatError::ShStrTabNotFound)));
}

#[test]
fn rejects_strtab_bytes_out_of_range() {
    let mut b = sample_file(0, true, false);
    set_u64(&mut b, 64 + 64 + 24, 1 << 40);
    assert!(matches!(open(b), Err(FormatError::SectionBytesOutOfRange)));
}

#[test]
fn rejects_missing_symtab() {
    let mut b = sample_file(0, true, false);
    // Turn the SYMTAB section into PROGBITS: no symbol table is left.
    set_u32(&mut b, 64 + 128 + 4, 1);
    assert!(matches!(open(b), Err(FormatError::SymbolTableNotFound)));
}

#[test]
fn rejects_symtab_bytes_out_of_range() {
    let mut b = sample_file(0, true, false);
    set_u64(&mut b, 64 + 128 + 24, 1 << 40);
    assert!(matches!(open(b), Err(FormatError::SectionBytesOutOfRange)));
}

#[test]
fn rejects_misaligned_symtab() {
    let mut b = sample_file(0, true, false);
    // 23 bytes is not a whole number of 24-byte symbol records.
    set_u64(&mut b, 64 + 128 + 32, 23);
    assert!(matches!(open(b), Err(FormatError::SymbolTableMisaligned)));
}

#[test]
fn rejects_symtab_link_out_of_range() {
    let mut b = sample_file(0, true, false);
    set_u32(&mut b, 64 + 128 + 40, 9);
    assert!(matches!(open(b), Err(FormatError::SymStrTabNotFound)));
}

#[test]
fn rejects_symtab_link_with_bad_bytes() {
    let mut b = sample_file(1, true, false);
    // Section 3 exists but its byte range lies past the buffer end; linking
    // the symbol table to it must fail the same way as a missing section.
    set_u64(&mut b, 64 + 3 * 64 + 24, 1 << 40);
    set_u64(&mut b, 64 + 3 * 64 + 32, 8);
    set_u32(&mut b, 64 + 128 + 40, 3);
    assert!(matches!(open(b), Err(FormatError::SymStrTabNotFound)));
}

#[test]
fn three_sections_one_symbol() {
    // End-to-end: NULL + .strtab + SYMTAB, one symbol named "main".
    let f = open(sample_file(0, true, false)).map_err(|e| e.message()).unwrap();
    assert_eq!(f.section_num(), 3);
    assert_eq!(f.section_name(1).unwrap(), b".strtab".to_vec());
    let syms = f.symbols().unwrap();
    assert_eq!(syms.len(), 1);
    assert_eq!(syms[0].name, b"main".to_vec());
    assert_eq!(syms[0].value, 0x1000);
    assert_eq!(syms[0].size, 8);
    assert_eq!(syms[0].shndx, 1);
}

#[test]
fn symbols_is_idempotent() {
    let f = open(sample_file(0, true, false)).map_err(|e| e.message()).unwrap();
    let first = f.symbols().unwrap();
    let second = f.symbols().unwrap();
    assert_eq!(first, second);
}

#[test]
fn section_name_rejects_bad_index() {
    let f = open(sample_file(0, true, false)).map_err(|e| e.message()).unwrap();
    assert!(matches!(f.section_name(3), Err(FormatError::SectionIndexOutOfRange)));
}

#[test]
fn section_name_rejects_name_offset_past_table() {
    let mut b = sample_file(0, true, false);
    set_u32(&mut b, 64 + 64, 100);
    let f = open(b).map_err(|e| e.message()).unwrap();
    assert!(matches!(f.section_name(1), Err(FormatError::StrIndexOutOfRange)));
}

#[test]
fn empty_name_at_offset_zero() {
    let f = open(sample_file(0, true, false)).map_err(|e| e.message()).unwrap();
    assert_eq!(f.section_name(0).unwrap(), Vec::<u8>::new());
}

#[test]
fn symbols_reject_unterminated_name() {
    let mut b = sample_file(0, true, false);
    // Shorten the string table by one byte: "main" loses its terminator.
    set_u64(&mut b, 64 + 64 + 32, (STRTAB.len() - 1) as u64);
    let f = open(b).map_err(|e| e.message()).unwrap();
    assert!(matches!(f.symbols(), Err(FormatError::UnterminatedString)));
}

#[test]
fn header_fields_decode() {
    let mut b = sample_file(0, true, false);
    set_u16(&mut b, 16, 1);
    set_u16(&mut b, 18, 0x3e);
    set_u32(&mut b, 20, 1);
    set_u64(&mut b, 24, 0x40_1000);
    let f = open(b).map_err(|e| e.message()).unwrap();
    let h = f.header();
    assert_eq!(h.ty, 1);
    assert_eq!(h.machine, 0x3e);
    assert_eq!(h.version, 1);
    assert_eq!(h.entry, 0x40_1000);
    assert_eq!(h.sh_off, 64);
    assert_eq!(h.sh_num, 3);
    assert_eq!(h.sh_strndx, 1);
    assert_eq!(h.ident[0], 0x7f);
    assert_eq!(h.ident[1], b'E');
}

#[test]
fn section_header_fields_decode() {
    let f = open(sample_file(0, true, false)).map_err(|e| e.message()).unwrap();
    let sh = f.section_header(2).unwrap();
    assert_eq!(sh.ty, 2);
    assert_eq!(sh.size, 24);
    assert_eq!(sh.link, 1);
    assert!(matches!(f.section_header(3), Err(FormatError::SectionIndexOutOfRange)));
}

#[test]
fn both_escapes_combined() {
    // Extended count and extended string-table index at once.
    let f = open(sample_file(0, false, true)).map_err(|e| e.message()).unwrap();
    assert_eq!(f.section_num(), 3);
    assert_eq!(f.section_name(1).unwrap(), b".strtab".to_vec());
}

#[test]
fn two_symbols_decode_in_order() {
    let mut b = sample_file(0, true, false);
    let strtab_off = 64 + 3 * 64;
    let symtab_off = strtab_off + STRTAB.len();
    set_u64(&mut b, 64 + 128 + 32, 48);
    b.extend_from_slice(&[0u8; 24]);
    set_u32(&mut b, symtab_off + 24, 1);
    set_u16(&mut b, symtab_off + 24 + 6, 2);
    set_u64(&mut b, symtab_off + 24 + 8, 7);
    let f = open(b).map_err(|e| e.message()).unwrap();
    let syms = f.symbols().unwrap();
    assert_eq!(syms.len(), 2);
    assert_eq!(syms[0].name, b"main".to_vec());
    assert_eq!(syms[1].name, b".strtab".to_vec());
    assert_eq!(syms[1].value, 7);
    assert_eq!(syms[1].shndx, 2);
}
