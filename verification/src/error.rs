//! The single error kind of the decoder: every structural expectation that a
//! malformed buffer can violate is one variant, carrying a fixed
//! human-readable cause string.

use vstd::prelude::*;

verus! {

/// Why a buffer was rejected, or why a query on a decoded file failed.
#[derive(Clone, Copy, Debug, PartialEq, Eq, Structural)]
pub enum FormatError {
    /// The buffer is shorter than the file header or does not start with the
    /// ELF magic bytes.
    NotElf,
    /// The header's byte-order flag declares an encoding other than
    /// little-endian, which is the only one this decoder models; decoding
    /// such a file's multi-byte fields would misread every one of them.
    UnsupportedByteOrder,
    /// A NOBITS section's bytes were asked for. Such a section has no
    /// file-backed bytes (its size describes virtual memory only), so
    /// handing out buffer bytes at its declared range would be misleading.
    NoBitsSection,
    /// The section header table (or its mandatory first entry) does not fit
    /// inside the buffer.
    SectionTableOutOfRange,
    /// A section's declared byte range does not fit inside the buffer.
    SectionBytesOutOfRange,
    /// The resolved section-header string table index names no section.
    ShStrTabNotFound,
    /// No section of type SYMTAB exists.
    SymbolTableNotFound,
    /// The SYMTAB section's byte length is not a multiple of the symbol
    /// record size.
    SymbolTableMisaligned,
    /// The symbol table's linked string-table section does not exist or its
    /// bytes do not fit inside the buffer.
    SymStrTabNotFound,
    /// A string lookup started past the end of its string table.
    StrIndexOutOfRange,
    /// A string lookup found no NUL terminator before the end of its table.
    UnterminatedString,
    /// A section index passed to a query names no section.
    SectionIndexOutOfRange,
}

impl FormatError {
    /// The human-readable cause string carried by this error.
    pub fn message(&self) -> (r: &'static str)
        ensures
            self == FormatError::NotElf ==> r@ == "not an ELF file"@,
            self == FormatError::UnsupportedByteOrder ==> r@ == "unsupported byte order"@,
            self == FormatError::NoBitsSection ==> r@ == "NOBITS section has no file bytes"@,
            self == FormatError::SectionTableOutOfRange ==> r@ == "section header table out of range"@,
            self == FormatError::SectionBytesOutOfRange ==> r@ == "section bytes out of range"@,
            self == FormatError::ShStrTabNotFound ==> r@ == "section-header string table not found"@,
            self == FormatError::SymbolTableNotFound ==> r@ == "symbol table not found"@,
            self == FormatError::SymbolTableMisaligned ==> r@
                == "symbol table size is not a multiple of the symbol record size"@,
            self == FormatError::SymStrTabNotFound ==> r@ == "symbol string table not found"@,
            self == FormatError::StrIndexOutOfRange ==> r@ == "string index out of range"@,
            self == FormatError::UnterminatedString ==> r@ == "unterminated string"@,
            self == FormatError::SectionIndexOutOfRange ==> r@ == "section index out of range"@,
    {
        match self {
            FormatError::NotElf => "not an ELF file",
            FormatError::UnsupportedByteOrder => "unsupported byte order",
            FormatError::NoBitsSection => "NOBITS section has no file bytes",
            FormatError::SectionTableOutOfRange => "section header table out of range",
            FormatError::SectionBytesOutOfRange => "section bytes out of range",
            FormatError::ShStrTabNotFound => "section-header string table not found",
            FormatError::SymbolTableNotFound => "symbol table not found",
            FormatError::SymbolTableMisaligned => "symbol table size is not a multiple of the symbol record size",
            FormatError::SymStrTabNotFound => "symbol string table not found",
            FormatError::StrIndexOutOfRange => "string index out of range",
            FormatError::UnterminatedString => "unterminated string",
            FormatError::SectionIndexOutOfRange => "section index out of range",
        }
    }
}

} // verus!
