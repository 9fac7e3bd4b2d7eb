//! String-table lookups and raw section byte access.

use rlvd::elf::get_section_bytes;
use rlvd::error::FormatError;
use rlvd::SectionHeader;
use rlvd::StrTable;

fn null_header() -> SectionHeader {
    SectionHeader {
        name: 0,
        ty: 0,
        flags: 0,
        addr: 0,
        offset: 0,
        size: 0,
        link: 0,
        info: 0,
        addralign: 0,
        entsize: 0,
    }
}

#[test]
fn get_str_by_offset() {
    let t = StrTable { strs: b"\0.strtab\0main\0".to_vec() };
    assert_eq!(t.get_str(0).unwrap(), Vec::<u8>::new());
    assert_eq!(t.get_str(1).unwrap(), b".strtab".to_vec());
    assert_eq!(t.get_str(3).unwrap(), b"trtab".to_vec());
    assert_eq!(t.get_str(9).unwrap(), b"main".to_vec());
}

#[test]
fn get_str_at_table_end_is_unterminated() {
    let t = StrTable { strs: b"ab\0".to_vec() };
    assert!(matches!(t.get_str(3), Err(FormatError::UnterminatedString)));
}

#[test]
fn get_str_past_table_end_is_out_of_range() {
    let t = StrTable { strs: b"ab\0".to_vec() };
    assert!(matches!(t.get_str(4), Err(FormatError::StrIndexOutOfRange)));
}

#[test]
fn get_str_without_terminator_fails() {
    let t = StrTable { strs: b"ab".to_vec() };
    assert!(matches!(t.get_str(0), Err(FormatError::UnterminatedString)));
}

#[test]
fn section_bytes_in_range() {
    let input: Vec<u8> = (0u8..16).collect();
    let mut sh = null_header();
    sh.offset = 4;
    sh.size = 3;
    assert_eq!(get_section_bytes(&input, &sh).unwrap(), vec![4u8, 5, 6]);
}

#[test]
fn section_bytes_out_of_range() {
    let input: Vec<u8> = (0u8..16).collect();
    let mut sh = null_header();
    sh.offset = 10;
    sh.size = 7;
    assert!(matches!(get_section_bytes(&input, &sh), Err(FormatError::SectionBytesOutOfRange)));
}

#[test]
fn section_bytes_refused_for_nobits() {
    // Even with an in-range offset and size, a NOBITS section has no
    // file-backed bytes to hand out.
    let input: Vec<u8> = (0u8..16).collect();
    let mut sh = null_header();
    sh.ty = 8;
    sh.offset = 4;
    sh.size = 3;
    assert!(matches!(get_section_bytes(&input, &sh), Err(FormatError::NoBitsSection)));
}

#[test]
fn section_bytes_overflowing_range() {
    let input: Vec<u8> = (0u8..16).collect();
    let mut sh = null_header();
    sh.offset = u64::MAX;
    sh.size = 2;
    assert!(matches!(get_section_bytes(&input, &sh), Err(FormatError::SectionBytesOutOfRange)));
}

#[test]
fn error_messages() {
    assert_eq!(FormatError::NotElf.message(), "not an ELF file");
    assert_eq!(FormatError::SectionTableOutOfRange.message(), "section header table out of range");
    assert_eq!(FormatError::UnterminatedString.message(), "unterminated string");
    assert_eq!(FormatError::UnsupportedByteOrder.message(), "unsupported byte order");
    assert_eq!(FormatError::NoBitsSection.message(), "NOBITS section has no file bytes");
}
