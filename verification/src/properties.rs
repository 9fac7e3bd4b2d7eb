//! The laws of the decoder, stated and proved over the decode
//! specification: which buffers are rejected and why, how the two escape
//! encodings redirect, and that symbol decoding is deterministic.

use vstd::prelude::*;
use crate::elf::spec_symbol;
use crate::elf::symbols_ok;
use crate::elf::SymModel;
use crate::error::FormatError;
use crate::layout::find_symtab_from;
use crate::layout::is_elf_magic;
use crate::layout::is_little_endian;
use crate::layout::sec_base;
use crate::layout::spec_effective_count;
use crate::layout::spec_open;
use crate::layout::spec_resolved_strndx;
use crate::layout::spec_sec_link;
use crate::layout::spec_sec_offset;
use crate::layout::spec_sec_size;
use crate::layout::spec_sh_num;
use crate::layout::spec_sh_off;
use crate::layout::spec_sh_strndx;
use crate::layout::FileModel;
use crate::layout::ELF_HEADER_SIZE;
use crate::layout::SECTION_HEADER_SIZE;
use crate::layout::spec_sec_type;
use crate::layout::SHN_XINDEX;
use crate::layout::SHT_NOBITS;
use crate::layout::SYMBOL_SIZE;

verus! {

/// A buffer that does not begin with the 4-byte ELF magic — the empty
/// buffer included — is rejected as not an ELF file, whatever else it
/// holds.
pub proof fn lemma_open_rejects_bad_magic(b: Seq<u8>)
    requires
        !is_elf_magic(b),
    ensures
        spec_open(b) == Err::<FileModel, FormatError>(FormatError::NotElf),
{
}

/// When the inline section count field is nonzero, the decoded section
/// count is exactly that field.
pub proof fn lemma_inline_section_count(b: Seq<u8>, m: FileModel)
    requires
        spec_open(b) == Ok::<FileModel, FormatError>(m),
        spec_sh_num(b) != 0,
    ensures
        m.sh_count == spec_sh_num(b),
{
}

/// When the inline section count field is zero, the decoded section count
/// is section header 0's size field: the extended-count escape.
pub proof fn lemma_extended_section_count(b: Seq<u8>, m: FileModel)
    requires
        spec_open(b) == Ok::<FileModel, FormatError>(m),
        spec_sh_num(b) == 0,
    ensures
        m.sh_count == spec_sec_size(b, spec_sh_off(b)),
{
}

/// A buffer that passes the magic check but declares a byte order other
/// than little-endian is rejected rather than misdecoded: every field
/// contract of this decoder reads little-endian.
pub proof fn lemma_open_rejects_foreign_byte_order(b: Seq<u8>)
    requires
        ELF_HEADER_SIZE <= b.len(),
        is_elf_magic(b),
        !is_little_endian(b),
    ensures
        spec_open(b) == Err::<FileModel, FormatError>(FormatError::UnsupportedByteOrder),
{
}

/// A buffer whose resolved section-header string table is a NOBITS section
/// is rejected: such a section has no file-backed bytes to slice a string
/// table from.
pub proof fn lemma_open_rejects_nobits_shstrtab(b: Seq<u8>)
    requires
        ELF_HEADER_SIZE <= b.len(),
        is_elf_magic(b),
        is_little_endian(b),
        spec_sh_off(b) + SECTION_HEADER_SIZE <= b.len(),
        spec_sh_off(b) + spec_effective_count(b) * SECTION_HEADER_SIZE <= b.len(),
        spec_resolved_strndx(b) < spec_effective_count(b),
        spec_sec_type(b, sec_base(spec_sh_off(b), spec_resolved_strndx(b))) == SHT_NOBITS,
    ensures
        spec_open(b) == Err::<FileModel, FormatError>(FormatError::NoBitsSection),
{
}

/// A buffer whose declared section-table span — the mandatory first entry,
/// or the full effective count of entries — exceeds the buffer length is
/// rejected with the section-table error.
pub proof fn lemma_open_rejects_oversized_table(b: Seq<u8>)
    requires
        ELF_HEADER_SIZE <= b.len(),
        is_elf_magic(b),
        is_little_endian(b),
        b.len() < spec_sh_off(b) + SECTION_HEADER_SIZE || b.len() < spec_sh_off(b)
            + spec_effective_count(b) * SECTION_HEADER_SIZE,
    ensures
        spec_open(b) == Err::<FileModel, FormatError>(FormatError::SectionTableOutOfRange),
{
}

/// When the header's string-table index field is the reserved sentinel,
/// section names resolve through the section named by section header 0's
/// link field: the extended-index escape.
pub proof fn lemma_extended_strtab_index(b: Seq<u8>, m: FileModel)
    requires
        spec_open(b) == Ok::<FileModel, FormatError>(m),
        spec_sh_strndx(b) == SHN_XINDEX,
    ensures
        m.shstr_index == spec_sec_link(b, m.sh_off),
        m.shstr_off == spec_sec_offset(b, sec_base(m.sh_off, m.shstr_index)),
        m.shstr_size == spec_sec_size(b, sec_base(m.sh_off, m.shstr_index)),
{
}

/// A buffer whose SYMTAB section's byte length is not a whole number of
/// symbol records is rejected as misaligned, once the decode reaches the
/// symbol table.
pub proof fn lemma_open_rejects_misaligned_symtab(b: Seq<u8>, si: int)
    requires
        ELF_HEADER_SIZE <= b.len(),
        is_elf_magic(b),
        is_little_endian(b),
        spec_sh_off(b) + SECTION_HEADER_SIZE <= b.len(),
        spec_sh_off(b) + spec_effective_count(b) * SECTION_HEADER_SIZE <= b.len(),
        spec_resolved_strndx(b) < spec_effective_count(b),
        spec_sec_type(b, sec_base(spec_sh_off(b), spec_resolved_strndx(b))) != SHT_NOBITS,
        spec_sec_offset(b, sec_base(spec_sh_off(b), spec_resolved_strndx(b))) + spec_sec_size(
            b,
            sec_base(spec_sh_off(b), spec_resolved_strndx(b)),
        ) <= b.len(),
        find_symtab_from(b, spec_sh_off(b), spec_effective_count(b), 0) == Option::Some(si),
        spec_sec_offset(b, sec_base(spec_sh_off(b), si)) + spec_sec_size(
            b,
            sec_base(spec_sh_off(b), si),
        ) <= b.len(),
        spec_sec_size(b, sec_base(spec_sh_off(b), si)) % (SYMBOL_SIZE as int) != 0,
    ensures
        spec_open(b) == Err::<FileModel, FormatError>(FormatError::SymbolTableMisaligned),
{
}

/// Symbol decoding has no hidden state: any two symbol sequences decoded
/// from the same model are equal.
pub proof fn lemma_symbols_deterministic(m: FileModel, s1: Seq<SymModel>, s2: Seq<SymModel>)
    requires
        symbols_ok(m, s1),
        symbols_ok(m, s2),
    ensures
        s1 == s2,
{
    assert forall|i: int| 0 <= i < s1.len() implies s1[i] == s2[i] by {
        assert(spec_symbol(m, i) == Ok::<SymModel, FormatError>(s1[i]));
        assert(spec_symbol(m, i) == Ok::<SymModel, FormatError>(s2[i]));
    }
    assert(s1 =~= s2);
}

} // verus!
