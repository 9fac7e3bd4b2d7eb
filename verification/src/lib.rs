//! Zero-copy decoder for 64-bit ELF object files.
//!
//! The library validates an in-memory byte buffer against the ELF layout
//! (header, section header table, string tables, symbol table) and exposes
//! the decoded structure through bounds-checked queries. Every offset and
//! count taken from the untrusted input is checked before it is used to
//! index the buffer.
//!
//! Only the little-endian encoding is modeled: a header declaring any
//! other byte order is rejected rather than misdecoded. A NOBITS section
//! has no file-backed bytes, so asking for its bytes — directly or as one
//! of the decoder's string tables — fails with a distinct error.

pub mod bytes;
pub mod elf;
pub mod error;
pub mod layout;
pub mod properties;
pub mod strtab;

pub use bytes::le16;
pub use bytes::le32;
pub use bytes::le64;
pub use elf::open;
pub use elf::ElfFile;
pub use elf::ElfHeader;
pub use elf::SectionHeader;
pub use elf::SymbolView;
pub use error::FormatError;
pub use strtab::StrTable;
