//! The decoder proper: validating a buffer once, holding the validated
//! locations, and answering queries (section count, section names, symbols)
//! from them.

use vstd::prelude::*;
use crate::bytes::copy_range;
use crate::bytes::le16;
use crate::bytes::le32;
use crate::bytes::le64;
use crate::bytes::read_u16;
use crate::bytes::read_u32;
use crate::bytes::read_u64;
use crate::error::FormatError;
use crate::layout::lemma_open_bounds;
use crate::layout::find_symtab_from;
use crate::layout::sec_base;
use crate::layout::spec_open;
use crate::layout::spec_sec_link;
use crate::layout::spec_sec_name;
use crate::layout::spec_sec_offset;
use crate::layout::spec_sec_size;
use crate::layout::spec_sec_type;
use crate::layout::FileModel;
use crate::layout::EI_DATA;
use crate::layout::ELFDATA2LSB;
use crate::layout::ELF_HEADER_SIZE;
use crate::layout::SECTION_HEADER_SIZE;
use crate::layout::SHN_XINDEX;
use crate::layout::SHT_NOBITS;
use crate::layout::SHT_SYMTAB;
use crate::layout::SYMBOL_SIZE;
use crate::strtab::spec_get_str;
use crate::strtab::table_get_str;

verus! {

/// The fixed file header record, decoded field by field.
#[derive(Clone, Debug)]
pub struct ElfHeader {
    /// Identification bytes, magic included (the first 16 bytes).
    pub ident: Vec<u8>,
    /// Object file type.
    pub ty: u16,
    /// Target machine.
    pub machine: u16,
    /// Format version.
    pub version: u32,
    /// Entry point virtual address.
    pub entry: u64,
    /// File offset of the program header table.
    pub ph_off: u64,
    /// File offset of the section header table.
    pub sh_off: u64,
    /// Processor-specific flags.
    pub flags: u32,
    /// Size of this header.
    pub eh_size: u16,
    /// Size of one program header entry.
    pub ph_ent_size: u16,
    /// Number of program header entries.
    pub ph_num: u16,
    /// Size of one section header entry.
    pub sh_ent_size: u16,
    /// Inline section count (0 redirects to section header 0's size field).
    pub sh_num: u16,
    /// Section-header string table index (the sentinel redirects to section
    /// header 0's link field).
    pub sh_strndx: u16,
}

/// Whether `h` holds exactly the file header fields stored at the start of
/// `b`.
pub open spec fn header_matches(h: ElfHeader, b: Seq<u8>) -> bool {
    &&& h.ident@ == b.subrange(0, 16)
    &&& h.ty == le16(b, 16)
    &&& h.machine == le16(b, 18)
    &&& h.version == le32(b, 20)
    &&& h.entry == le64(b, 24)
    &&& h.ph_off == le64(b, 32)
    &&& h.sh_off == le64(b, 40)
    &&& h.flags == le32(b, 48)
    &&& h.eh_size == le16(b, 52)
    &&& h.ph_ent_size == le16(b, 54)
    &&& h.ph_num == le16(b, 56)
    &&& h.sh_ent_size == le16(b, 58)
    &&& h.sh_num == le16(b, 60)
    &&& h.sh_strndx == le16(b, 62)
}

/// One section header record, decoded field by field.
#[derive(Clone, Copy, Debug)]
pub struct SectionHeader {
    /// Byte offset of the section's name in the section-header string table.
    pub name: u32,
    /// Section type.
    pub ty: u32,
    /// Section flags.
    pub flags: u64,
    /// Virtual address.
    pub addr: u64,
    /// File offset of the section's bytes.
    pub offset: u64,
    /// Byte length of the section.
    pub size: u64,
    /// Type-dependent linked section index.
    pub link: u32,
    /// Type-dependent extra information.
    pub info: u32,
    /// Required alignment.
    pub addralign: u64,
    /// Size of one entry, for sections holding fixed-size records.
    pub entsize: u64,
}

/// Whether `h` holds exactly the section header fields stored at offset
/// `base` of `b`.
pub open spec fn sec_header_matches(h: SectionHeader, b: Seq<u8>, base: int) -> bool {
    &&& h.name == le32(b, base)
    &&& h.ty == le32(b, base + 4)
    &&& h.flags == le64(b, base + 8)
    &&& h.addr == le64(b, base + 16)
    &&& h.offset == le64(b, base + 24)
    &&& h.size == le64(b, base + 32)
    &&& h.link == le32(b, base + 40)
    &&& h.info == le32(b, base + 44)
    &&& h.addralign == le64(b, base + 48)
    &&& h.entsize == le64(b, base + 56)
}

/// What one decoded symbol is: its resolved name bytes and its plain
/// fields.
pub ghost struct SymModel {
    /// The symbol's name, resolved through the symbol string table.
    pub name: Seq<u8>,
    /// The symbol's value.
    pub value: int,
    /// The symbol's size.
    pub size: int,
    /// Index of the section the symbol is defined in.
    pub shndx: int,
}

/// One decoded symbol with its name resolved.
#[derive(Clone, Debug, PartialEq, Eq)]
pub struct SymbolView {
    /// The symbol's name, resolved through the symbol string table.
    pub name: Vec<u8>,
    /// The symbol's value.
    pub value: u64,
    /// The symbol's size.
    pub size: u64,
    /// Index of the section the symbol is defined in.
    pub shndx: u16,
}

impl View for SymbolView {
    type V = SymModel;

    open spec fn view(&self) -> SymModel {
        SymModel {
            name: self.name@,
            value: self.value as int,
            size: self.size as int,
            shndx: self.shndx as int,
        }
    }
}

/// Reads the `type` field of section header `i` of the table at `sh_off`.
fn sec_type_at(b: &Vec<u8>, sh_off: usize, i: usize) -> (r: u32)
    requires
        sh_off + (i + 1) * SECTION_HEADER_SIZE <= b.len(),
    ensures
        r as int == spec_sec_type(b@, sec_base(sh_off as int, i as int)),
{
    read_u32(b, sh_off + i * SECTION_HEADER_SIZE + 4)
}

/// Reads the `offset` field of section header `i` of the table at `sh_off`.
fn sec_offset_at(b: &Vec<u8>, sh_off: usize, i: usize) -> (r: u64)
    requires
        sh_off + (i + 1) * SECTION_HEADER_SIZE <= b.len(),
    ensures
        r as int == spec_sec_offset(b@, sec_base(sh_off as int, i as int)),
{
    read_u64(b, sh_off + i * SECTION_HEADER_SIZE + 24)
}

/// Reads the `size` field of section header `i` of the table at `sh_off`.
fn sec_size_at(b: &Vec<u8>, sh_off: usize, i: usize) -> (r: u64)
    requires
        sh_off + (i + 1) * SECTION_HEADER_SIZE <= b.len(),
    ensures
        r as int == spec_sec_size(b@, sec_base(sh_off as int, i as int)),
{
    read_u64(b, sh_off + i * SECTION_HEADER_SIZE + 32)
}

/// Reads the `link` field of section header `i` of the table at `sh_off`.
fn sec_link_at(b: &Vec<u8>, sh_off: usize, i: usize) -> (r: u32)
    requires
        sh_off + (i + 1) * SECTION_HEADER_SIZE <= b.len(),
    ensures
        r as int == spec_sec_link(b@, sec_base(sh_off as int, i as int)),
{
    read_u32(b, sh_off + i * SECTION_HEADER_SIZE + 40)
}

/// Reads the `name` field of section header `i` of the table at `sh_off`.
fn sec_name_at(b: &Vec<u8>, sh_off: usize, i: usize) -> (r: u32)
    requires
        sh_off + (i + 1) * SECTION_HEADER_SIZE <= b.len(),
    ensures
        r as int == spec_sec_name(b@, sec_base(sh_off as int, i as int)),
{
    read_u32(b, sh_off + i * SECTION_HEADER_SIZE)
}

/// Scans the section header table in order for the first SYMTAB section.
fn locate_symtab(b: &Vec<u8>, sh_off: usize, count: usize) -> (r: Option<usize>)
    requires
        sh_off + count * SECTION_HEADER_SIZE <= b.len(),
    ensures
        (match r {
            Option::Some(si) => si < count && find_symtab_from(
                b@,
                sh_off as int,
                count as int,
                0,
            ) == Option::Some(si as int),
            Option::None => find_symtab_from(b@, sh_off as int, count as int, 0)
                == Option::<int>::None,
        }),
{
    let mut i: usize = 0;
    while i < count
        invariant
            i <= count,
            sh_off + count * SECTION_HEADER_SIZE <= b.len(),
            find_symtab_from(b@, sh_off as int, count as int, 0) == find_symtab_from(
                b@,
                sh_off as int,
                count as int,
                i as int,
            ),
        decreases count - i,
    {
        if sec_type_at(b, sh_off, i) == SHT_SYMTAB {
            return Option::Some(i);
        }
        i = i + 1;
    }
    Option::None
}

/// A decoded ELF file: the raw buffer together with the validated locations
/// of its section table, string tables and symbol table. All fields are
/// fixed at construction; queries only read.
pub struct ElfFile {
    buf: Vec<u8>,
    header: ElfHeader,
    sh_off: usize,
    sh_count: usize,
    shstr_index: usize,
    shstr_off: usize,
    shstr_size: usize,
    symtab_index: usize,
    symtab_off: usize,
    symtab_size: usize,
    sym_count: usize,
    symstr_index: usize,
    symstr_off: usize,
    symstr_size: usize,
}

impl View for ElfFile {
    type V = FileModel;

    closed spec fn view(&self) -> FileModel {
        FileModel {
            bytes: self.buf@,
            sh_off: self.sh_off as int,
            sh_count: self.sh_count as int,
            shstr_index: self.shstr_index as int,
            shstr_off: self.shstr_off as int,
            shstr_size: self.shstr_size as int,
            symtab_index: self.symtab_index as int,
            symtab_off: self.symtab_off as int,
            symtab_size: self.symtab_size as int,
            sym_count: self.sym_count as int,
            symstr_index: self.symstr_index as int,
            symstr_off: self.symstr_off as int,
            symstr_size: self.symstr_size as int,
        }
    }
}

impl ElfFile {
    /// A decoded file is exactly what the decode of its own buffer yields,
    /// and its header copy holds the header fields of that buffer.
    /// `new` establishes this and nothing ever mutates a decoded file.
    pub closed spec fn wf(self) -> bool {
        &&& spec_open(self.buf@) == Ok::<FileModel, FormatError>(self@)
        &&& header_matches(self.header, self.buf@)
    }

    /// Decodes `input`: validates the magic and the byte-order flag, the
    /// section header table (with the extended-count rule), the
    /// section-header string table (with the extended-index rule), and the
    /// symbol table with its string table. A string table of type NOBITS
    /// is rejected: its bytes are not in the file.
    pub fn new(input: Vec<u8>) -> (r: Result<ElfFile, FormatError>)
        ensures
            match r {
                Ok(f) => f.wf() && spec_open(input@) == Ok::<FileModel, FormatError>(f@),
                Err(e) => spec_open(input@) == Err::<FileModel, FormatError>(e),
            },
    {
        let ghost b = input@;
        let len = input.len();
        if len < ELF_HEADER_SIZE {
            return Err(FormatError::NotElf);
        }
        if !(input[0] == 0x7f && input[1] == 0x45 && input[2] == 0x4c && input[3] == 0x46) {
            return Err(FormatError::NotElf);
        }
        if input[EI_DATA] != ELFDATA2LSB {
            return Err(FormatError::UnsupportedByteOrder);
        }
        let sh_off64 = read_u64(&input, 40);
        if sh_off64 > (len - SECTION_HEADER_SIZE) as u64 {
            return Err(FormatError::SectionTableOutOfRange);
        }
        let sh_off = sh_off64 as usize;
        let sh_num = read_u16(&input, 60);
        let count64: u64 = if sh_num != 0 {
            sh_num as u64
        } else {
            sec_size_at(&input, sh_off, 0)
        };
        let avail = len - sh_off;
        if count64 > (avail / SECTION_HEADER_SIZE) as u64 {
            proof {
                assert(avail < (avail / 64) * 64 + 64);
            }
            return Err(FormatError::SectionTableOutOfRange);
        }
        let count = count64 as usize;
        proof {
            assert(count * 64 <= (avail / 64) * 64 <= avail);
        }
        let strndx64: u64 = {
            let sn = read_u16(&input, 62);
            if sn == SHN_XINDEX {
                sec_link_at(&input, sh_off, 0) as u64
            } else {
                sn as u64
            }
        };
        if strndx64 >= count64 {
            return Err(FormatError::ShStrTabNotFound);
        }
        let strndx = strndx64 as usize;
        if sec_type_at(&input, sh_off, strndx) == SHT_NOBITS {
            return Err(FormatError::NoBitsSection);
        }
        let shstr_off64 = sec_offset_at(&input, sh_off, strndx);
        let shstr_size64 = sec_size_at(&input, sh_off, strndx);
        if shstr_size64 > len as u64 || shstr_off64 > len as u64 - shstr_size64 {
            return Err(FormatError::SectionBytesOutOfRange);
        }
        let symtab_index = match locate_symtab(&input, sh_off, count) {
            Option::None => {
                return Err(FormatError::SymbolTableNotFound);
            },
            Option::Some(si) => si,
        };
        let symtab_off64 = sec_offset_at(&input, sh_off, symtab_index);
        let symtab_size64 = sec_size_at(&input, sh_off, symtab_index);
        if symtab_size64 > len as u64 || symtab_off64 > len as u64 - symtab_size64 {
            return Err(FormatError::SectionBytesOutOfRange);
        }
        if symtab_size64 % (SYMBOL_SIZE as u64) != 0 {
            return Err(FormatError::SymbolTableMisaligned);
        }
        let symstr64 = sec_link_at(&input, sh_off, symtab_index) as u64;
        if symstr64 >= count64 {
            return Err(FormatError::SymStrTabNotFound);
        }
        let symstr_index = symstr64 as usize;
        if sec_type_at(&input, sh_off, symstr_index) == SHT_NOBITS {
            return Err(FormatError::NoBitsSection);
        }
        let symstr_off64 = sec_offset_at(&input, sh_off, symstr_index);
        let symstr_size64 = sec_size_at(&input, sh_off, symstr_index);
        if symstr_size64 > len as u64 || symstr_off64 > len as u64 - symstr_size64 {
            return Err(FormatError::SymStrTabNotFound);
        }
        let sym_count = (symtab_size64 / (SYMBOL_SIZE as u64)) as usize;
        let header = ElfHeader {
            ident: copy_range(&input, 0, 16),
            ty: read_u16(&input, 16),
            machine: read_u16(&input, 18),
            version: read_u32(&input, 20),
            entry: read_u64(&input, 24),
            ph_off: read_u64(&input, 32),
            sh_off: read_u64(&input, 40),
            flags: read_u32(&input, 48),
            eh_size: read_u16(&input, 52),
            ph_ent_size: read_u16(&input, 54),
            ph_num: read_u16(&input, 56),
            sh_ent_size: read_u16(&input, 58),
            sh_num: read_u16(&input, 60),
            sh_strndx: read_u16(&input, 62),
        };
        let f = ElfFile {
            buf: input,
            header,
            sh_off,
            sh_count: count,
            shstr_index: strndx,
            shstr_off: shstr_off64 as usize,
            shstr_size: shstr_size64 as usize,
            symtab_index,
            symtab_off: symtab_off64 as usize,
            symtab_size: symtab_size64 as usize,
            sym_count,
            symstr_index,
            symstr_off: symstr_off64 as usize,
            symstr_size: symstr_size64 as usize,
        };
        proof {
            assert(spec_open(b) == Ok::<FileModel, FormatError>(f@));
        }
        Ok(f)
    }

    /// Number of decoded section headers.
    pub fn section_num(&self) -> (r: usize)
        requires
            self.wf(),
        ensures
            r == self@.sh_count,
    {
        self.sh_count
    }

    /// The decoded file header.
    pub fn header(&self) -> (h: &ElfHeader)
        requires
            self.wf(),
        ensures
            header_matches(*h, self@.bytes),
    {
        &self.header
    }

    /// The decoded section header at `index`.
    pub fn section_header(&self, index: usize) -> (r: Result<SectionHeader, FormatError>)
        requires
            self.wf(),
        ensures
            match r {
                Ok(h) => index < self@.sh_count && sec_header_matches(
                    h,
                    self@.bytes,
                    sec_base(self@.sh_off, index as int),
                ),
                Err(e) => index >= self@.sh_count && e == FormatError::SectionIndexOutOfRange,
            },
    {
        if index >= self.sh_count {
            return Err(FormatError::SectionIndexOutOfRange);
        }
        proof {
            lemma_open_bounds(self.buf@, self@);
            assert(self.buf.len() == self.buf@.len());
        }
        let base = self.sh_off + index * SECTION_HEADER_SIZE;
        Ok(SectionHeader {
            name: read_u32(&self.buf, base),
            ty: read_u32(&self.buf, base + 4),
            flags: read_u64(&self.buf, base + 8),
            addr: read_u64(&self.buf, base + 16),
            offset: read_u64(&self.buf, base + 24),
            size: read_u64(&self.buf, base + 32),
            link: read_u32(&self.buf, base + 40),
            info: read_u32(&self.buf, base + 44),
            addralign: read_u64(&self.buf, base + 48),
            entsize: read_u64(&self.buf, base + 56),
        })
    }

    /// Resolves the name of the section at `index` through the
    /// section-header string table.
    pub fn section_name(&self, index: usize) -> (r: Result<Vec<u8>, FormatError>)
        requires
            self.wf(),
        ensures
            match r {
                Ok(s) => spec_section_name(self@, index as int) == Ok::<Seq<u8>, FormatError>(s@),
                Err(e) => spec_section_name(self@, index as int) == Err::<Seq<u8>, FormatError>(e),
            },
    {
        if index >= self.sh_count {
            return Err(FormatError::SectionIndexOutOfRange);
        }
        proof {
            lemma_open_bounds(self.buf@, self@);
            assert(self.buf.len() == self.buf@.len());
        }
        let name = sec_name_at(&self.buf, self.sh_off, index);
        table_get_str(&self.buf, self.shstr_off, self.shstr_size, name as usize)
    }
}

/// What `section_name` returns for section `index` of a decoded file: the
/// section's name field looked up in the section-header string table.
pub open spec fn spec_section_name(m: FileModel, index: int) -> Result<Seq<u8>, FormatError> {
    if index < 0 || index >= m.sh_count {
        Err(FormatError::SectionIndexOutOfRange)
    } else {
        spec_get_str(
            m.bytes.subrange(m.shstr_off, m.shstr_off + m.shstr_size),
            spec_sec_name(m.bytes, sec_base(m.sh_off, index)),
        )
    }
}

/// What decoding symbol record `i` yields: its name resolved through the
/// symbol string table, and its value, size and defining-section fields;
/// or the error of the failed name lookup.
pub open spec fn spec_symbol(m: FileModel, i: int) -> Result<SymModel, FormatError> {
    let base = m.symtab_off + i * (SYMBOL_SIZE as int);
    match spec_get_str(
        m.bytes.subrange(m.symstr_off, m.symstr_off + m.symstr_size),
        le32(m.bytes, base),
    ) {
        Err(e) => Err(e),
        Ok(name) => Ok(
            SymModel {
                name,
                value: le64(m.bytes, base + 8),
                size: le64(m.bytes, base + 16),
                shndx: le16(m.bytes, base + 6),
            },
        ),
    }
}

/// The views of the symbols in `v`, in order.
pub open spec fn sym_models(v: Seq<SymbolView>) -> Seq<SymModel> {
    Seq::new(v.len(), |i: int| v[i]@)
}

/// A successful `symbols` result: one entry per symbol record, each exactly
/// what `spec_symbol` yields for its index.
pub open spec fn symbols_ok(m: FileModel, syms: Seq<SymModel>) -> bool {
    &&& syms.len() == m.sym_count
    &&& forall|i: int|
        0 <= i < m.sym_count ==> spec_symbol(m, i) == Ok::<SymModel, FormatError>(syms[i])
}

/// A failed `symbols` result: the traversal stopped at the first symbol
/// whose name does not resolve, with that symbol's error.
pub open spec fn symbols_fail(m: FileModel, e: FormatError) -> bool {
    exists|i: int|
        {
            &&& 0 <= i < m.sym_count
            &&& spec_symbol(m, i) == Err::<SymModel, FormatError>(e)
            &&& forall|j: int| 0 <= j < i ==> spec_symbol(m, j) is Ok
        }
}

impl ElfFile {
    /// Decodes all symbol records, resolving each name through the symbol
    /// string table, in table order. The traversal is fail-fast: the first
    /// symbol whose name does not resolve aborts it with that error.
    pub fn symbols(&self) -> (r: Result<Vec<SymbolView>, FormatError>)
        requires
            self.wf(),
        ensures
            match r {
                Ok(v) => symbols_ok(self@, sym_models(v@)),
                Err(e) => symbols_fail(self@, e),
            },
    {
        proof {
            lemma_open_bounds(self.buf@, self@);
            assert(self.buf.len() == self.buf@.len());
        }
        let mut v: Vec<SymbolView> = Vec::new();
        let mut i: usize = 0;
        while i < self.sym_count
            invariant
                self.wf(),
                i <= self.sym_count,
                self.sym_count as int * (SYMBOL_SIZE as int) == self@.symtab_size,
                self.symtab_off + self@.symtab_size <= self.buf.len(),
                self.symstr_off + self.symstr_size <= self.buf.len(),
                self@.symtab_off == self.symtab_off as int,
                self@.symstr_off == self.symstr_off as int,
                self@.symstr_size == self.symstr_size as int,
                self@.sym_count == self.sym_count as int,
                self@.bytes == self.buf@,
                v@.len() == i,
                forall|j: int|
                    0 <= j < i ==> spec_symbol(self@, j) == Ok::<SymModel, FormatError>(v@[j]@),
            decreases self.sym_count - i,
        {
            let base = self.symtab_off + i * SYMBOL_SIZE;
            let name_off = read_u32(&self.buf, base);
            match table_get_str(&self.buf, self.symstr_off, self.symstr_size, name_off as usize) {
                Err(e) => {
                    proof {
                        assert(spec_symbol(self@, i as int) == Err::<SymModel, FormatError>(e));
                    }
                    return Err(e);
                },
                Ok(name) => {
                    let value = read_u64(&self.buf, base + 8);
                    let size = read_u64(&self.buf, base + 16);
                    let shndx = read_u16(&self.buf, base + 6);
                    let sym = SymbolView { name, value, size, shndx };
                    proof {
                        assert(spec_symbol(self@, i as int) == Ok::<SymModel, FormatError>(sym@));
                    }
                    v.push(sym);
                    i = i + 1;
                },
            }
        }
        proof {
            assert(symbols_ok(self@, sym_models(v@)));
        }
        Ok(v)
    }
}

/// Checks that a section has file-backed bytes and that its declared byte
/// range lies inside the buffer, and hands its bytes out. A NOBITS section
/// is refused outright: its size field describes virtual memory, so the
/// buffer bytes at its declared range would be misleading.
pub fn get_section_bytes(input: &Vec<u8>, sh: &SectionHeader) -> (r: Result<Vec<u8>, FormatError>)
    ensures
        match r {
            Ok(s) => sh.ty != SHT_NOBITS && sh.offset + sh.size <= input@.len() && s@
                == input@.subrange(sh.offset as int, sh.offset + sh.size),
            Err(e) => (if sh.ty == SHT_NOBITS {
                e == FormatError::NoBitsSection
            } else {
                sh.offset + sh.size > input@.len() && e == FormatError::SectionBytesOutOfRange
            }),
        },
{
    if sh.ty == SHT_NOBITS {
        return Err(FormatError::NoBitsSection);
    }
    let len = input.len();
    if sh.size > len as u64 || sh.offset > len as u64 - sh.size {
        return Err(FormatError::SectionBytesOutOfRange);
    }
    Ok(copy_range(input, sh.offset as usize, (sh.offset + sh.size) as usize))
}

/// Decodes `input` into an `ElfFile`; the buffer-to-model facade.
pub fn open(input: Vec<u8>) -> (r: Result<ElfFile, FormatError>)
    ensures
        match r {
            Ok(f) => f.wf() && spec_open(input@) == Ok::<FileModel, FormatError>(f@),
            Err(e) => spec_open(input@) == Err::<FileModel, FormatError>(e),
        },
{
    ElfFile::new(input)
}

} // verus!
