//! The 64-bit ELF layout: record sizes, field offsets, and the mathematical
//! description of the whole decode — which buffers are accepted, with which
//! section table, string tables and symbol table, and which error rejects
//! the rest.

use vstd::prelude::*;
use crate::bytes::le16;
use crate::bytes::le32;
use crate::bytes::le64;
use crate::error::FormatError;

verus! {

/// Size in bytes of the fixed file header record.
pub const ELF_HEADER_SIZE: usize = 64;

/// Size in bytes of one section header record.
pub const SECTION_HEADER_SIZE: usize = 64;

/// Size in bytes of one symbol record.
pub const SYMBOL_SIZE: usize = 24;

/// Reserved sentinel for the file header's string-table index field: the
/// real index is stored in section header 0's `link` field instead.
pub const SHN_XINDEX: u16 = 0xffff;

/// Section type value identifying the symbol table.
pub const SHT_SYMTAB: u32 = 2;

/// Section type value identifying a section with no file-backed bytes: its
/// size field describes virtual memory only, so its declared byte range
/// must never be read from the buffer.
pub const SHT_NOBITS: u32 = 8;

/// Offset of the byte-order flag inside the header's identification bytes.
pub const EI_DATA: usize = 5;

/// Byte-order flag value for the little-endian encoding, the only one this
/// decoder models.
pub const ELFDATA2LSB: u8 = 1;

/// Whether `b` starts with the 4-byte ELF magic `0x7f 'E' 'L' 'F'`.
pub open spec fn is_elf_magic(b: Seq<u8>) -> bool {
    b.len() >= 4 && b[0] == 0x7f && b[1] == 0x45 && b[2] == 0x4c && b[3] == 0x46
}

/// Whether the header declares the little-endian encoding. Every multi-byte
/// field is decoded little-endian, so a buffer declaring any other byte
/// order is rejected rather than misdecoded.
pub open spec fn is_little_endian(b: Seq<u8>) -> bool {
    b.len() > EI_DATA && b[EI_DATA as int] == ELFDATA2LSB
}

/// The file header's section table offset field.
pub open spec fn spec_sh_off(b: Seq<u8>) -> int {
    le64(b, 40)
}

/// The file header's inline section count field.
pub open spec fn spec_sh_num(b: Seq<u8>) -> int {
    le16(b, 60)
}

/// The file header's section-header string table index field.
pub open spec fn spec_sh_strndx(b: Seq<u8>) -> int {
    le16(b, 62)
}

/// Start of section header `i` in a table at offset `sh_off`.
pub open spec fn sec_base(sh_off: int, i: int) -> int {
    sh_off + i * (SECTION_HEADER_SIZE as int)
}

/// The `name` field of the section header starting at `base`.
pub open spec fn spec_sec_name(b: Seq<u8>, base: int) -> int {
    le32(b, base)
}

/// The `type` field of the section header starting at `base`.
pub open spec fn spec_sec_type(b: Seq<u8>, base: int) -> int {
    le32(b, base + 4)
}

/// The `offset` field of the section header starting at `base`.
pub open spec fn spec_sec_offset(b: Seq<u8>, base: int) -> int {
    le64(b, base + 24)
}

/// The `size` field of the section header starting at `base`.
pub open spec fn spec_sec_size(b: Seq<u8>, base: int) -> int {
    le64(b, base + 32)
}

/// The `link` field of the section header starting at `base`.
pub open spec fn spec_sec_link(b: Seq<u8>, base: int) -> int {
    le32(b, base + 40)
}

/// The effective section count: the inline count field, or, when that
/// field is zero, section header 0's size field (the extended-count rule).
pub open spec fn spec_effective_count(b: Seq<u8>) -> int {
    if spec_sh_num(b) != 0 {
        spec_sh_num(b)
    } else {
        spec_sec_size(b, spec_sh_off(b))
    }
}

/// The effective section-header string table index: the header field, or,
/// when that field is the reserved sentinel, section header 0's link field
/// (the extended-index rule).
pub open spec fn spec_resolved_strndx(b: Seq<u8>) -> int {
    if spec_sh_strndx(b) == SHN_XINDEX {
        spec_sec_link(b, spec_sh_off(b))
    } else {
        spec_sh_strndx(b)
    }
}

/// Index of the first section at or after `i` whose type is SYMTAB, among
/// the `count` sections of the table at `sh_off`. Later SYMTAB sections are
/// deliberately ignored: the first match wins.
pub open spec fn find_symtab_from(b: Seq<u8>, sh_off: int, count: int, i: int) -> Option<int>
    decreases count - i,
{
    if i >= count {
        Option::None
    } else if spec_sec_type(b, sec_base(sh_off, i)) == SHT_SYMTAB {
        Option::Some(i)
    } else {
        find_symtab_from(b, sh_off, count, i + 1)
    }
}

/// The first-match policy of the SYMTAB scan, spelled out: a found index is
/// in range, has type SYMTAB, and no earlier index in the scanned range
/// does.
pub proof fn lemma_find_symtab_first(b: Seq<u8>, sh_off: int, count: int, i: int, si: int)
    requires
        find_symtab_from(b, sh_off, count, i) == Option::Some(si),
    ensures
        i <= si < count,
        spec_sec_type(b, sec_base(sh_off, si)) == SHT_SYMTAB,
        forall|j: int| i <= j < si ==> spec_sec_type(b, sec_base(sh_off, j)) != SHT_SYMTAB,
    decreases count - i,
{
    if i >= count {
    } else if spec_sec_type(b, sec_base(sh_off, i)) == SHT_SYMTAB {
    } else {
        lemma_find_symtab_first(b, sh_off, count, i + 1, si);
    }
}

/// Everything the decode establishes about an accepted buffer: the raw
/// bytes and the validated location of the section table, the
/// section-header string table, the symbol table and its string table.
pub ghost struct FileModel {
    /// The raw buffer.
    pub bytes: Seq<u8>,
    /// File offset of the section header table.
    pub sh_off: int,
    /// Effective number of section headers (after the extended-count rule).
    pub sh_count: int,
    /// Index of the section-header string table (after the extended-index
    /// rule).
    pub shstr_index: int,
    /// File offset of the section-header string table's bytes.
    pub shstr_off: int,
    /// Byte length of the section-header string table.
    pub shstr_size: int,
    /// Index of the first SYMTAB section.
    pub symtab_index: int,
    /// File offset of the symbol table's bytes.
    pub symtab_off: int,
    /// Byte length of the symbol table.
    pub symtab_size: int,
    /// Number of symbol records.
    pub sym_count: int,
    /// Index of the symbol table's linked string-table section.
    pub symstr_index: int,
    /// File offset of the symbol string table's bytes.
    pub symstr_off: int,
    /// Byte length of the symbol string table.
    pub symstr_size: int,
}

/// The whole decode: which model an accepted buffer yields, and which error
/// rejects every other buffer.
pub open spec fn spec_open(b: Seq<u8>) -> Result<FileModel, FormatError> {
    if b.len() < ELF_HEADER_SIZE || !is_elf_magic(b) {
        Err(FormatError::NotElf)
    } else if !is_little_endian(b) {
        Err(FormatError::UnsupportedByteOrder)
    } else {
        let sh_off = spec_sh_off(b);
        if b.len() < sh_off + SECTION_HEADER_SIZE {
            Err(FormatError::SectionTableOutOfRange)
        } else {
            let sh_count = spec_effective_count(b);
            if b.len() < sh_off + sh_count * SECTION_HEADER_SIZE {
                Err(FormatError::SectionTableOutOfRange)
            } else {
                let shstr_index = spec_resolved_strndx(b);
                if shstr_index >= sh_count {
                    Err(FormatError::ShStrTabNotFound)
                } else if spec_sec_type(b, sec_base(sh_off, shstr_index)) == SHT_NOBITS {
                    Err(FormatError::NoBitsSection)
                } else {
                    let shstr_off = spec_sec_offset(b, sec_base(sh_off, shstr_index));
                    let shstr_size = spec_sec_size(b, sec_base(sh_off, shstr_index));
                    if shstr_off + shstr_size > b.len() {
                        Err(FormatError::SectionBytesOutOfRange)
                    } else {
                        match find_symtab_from(b, sh_off, sh_count, 0) {
                            Option::None => Err(FormatError::SymbolTableNotFound),
                            Option::Some(symtab_index) => {
                                let symtab_off = spec_sec_offset(b, sec_base(sh_off, symtab_index));
                                let symtab_size = spec_sec_size(b, sec_base(sh_off, symtab_index));
                                if symtab_off + symtab_size > b.len() {
                                    Err(FormatError::SectionBytesOutOfRange)
                                } else if symtab_size % (SYMBOL_SIZE as int) != 0 {
                                    Err(FormatError::SymbolTableMisaligned)
                                } else {
                                    let symstr_index = spec_sec_link(b, sec_base(sh_off, symtab_index));
                                    if symstr_index >= sh_count {
                                        Err(FormatError::SymStrTabNotFound)
                                    } else if spec_sec_type(b, sec_base(sh_off, symstr_index))
                                        == SHT_NOBITS {
                                        Err(FormatError::NoBitsSection)
                                    } else {
                                        let symstr_off = spec_sec_offset(b, sec_base(sh_off, symstr_index));
                                        let symstr_size = spec_sec_size(b, sec_base(sh_off, symstr_index));
                                        if symstr_off + symstr_size > b.len() {
                                            Err(FormatError::SymStrTabNotFound)
                                        } else {
                                            Ok(FileModel {
                                                bytes: b,
                                                sh_off,
                                                sh_count,
                                                shstr_index,
                                                shstr_off,
                                                shstr_size,
                                                symtab_index,
                                                symtab_off,
                                                symtab_size,
                                                sym_count: symtab_size / (SYMBOL_SIZE as int),
                                                symstr_index,
                                                symstr_off,
                                                symstr_size,
                                            })
                                        }
                                    }
                                }
                            }
                        }
                    }
                }
            }
        }
    }
}

/// Bounds that every accepted buffer satisfies: each table the model names
/// lies inside the buffer, each resolved index names a section, and the
/// symbol table splits into whole records. Queries rely on these to index
/// the buffer safely.
pub proof fn lemma_open_bounds(b: Seq<u8>, m: FileModel)
    requires
        spec_open(b) == Ok::<FileModel, FormatError>(m),
    ensures
        m.bytes == b,
        ELF_HEADER_SIZE <= b.len(),
        0 <= m.sh_off,
        m.sh_off + SECTION_HEADER_SIZE <= b.len(),
        1 <= m.sh_count,
        m.sh_off + m.sh_count * SECTION_HEADER_SIZE <= b.len(),
        0 <= m.shstr_index < m.sh_count,
        0 <= m.shstr_off,
        0 <= m.shstr_size,
        m.shstr_off + m.shstr_size <= b.len(),
        0 <= m.symtab_index < m.sh_count,
        spec_sec_type(b, sec_base(m.sh_off, m.symtab_index)) == SHT_SYMTAB,
        0 <= m.symtab_off,
        0 <= m.symtab_size,
        m.symtab_off + m.symtab_size <= b.len(),
        m.symtab_size % (SYMBOL_SIZE as int) == 0,
        0 <= m.sym_count,
        m.sym_count == m.symtab_size / (SYMBOL_SIZE as int),
        m.sym_count * (SYMBOL_SIZE as int) == m.symtab_size,
        0 <= m.symstr_index < m.sh_count,
        0 <= m.symstr_off,
        0 <= m.symstr_size,
        m.symstr_off + m.symstr_size <= b.len(),
{
    lemma_find_symtab_first(b, m.sh_off, m.sh_count, 0, m.symtab_index);
    assert(m.sym_count * (SYMBOL_SIZE as int) == m.symtab_size) by {
        vstd::arithmetic::div_mod::lemma_fundamental_div_mod(
            m.symtab_size,
            SYMBOL_SIZE as int,
        );
    }
}

} // verus!
