//! A decoder for 32-bit little-endian RISC-V ELF images.
//!
//! The decoder borrows a byte buffer that already holds the image and hands
//! out typed, read-only views of its file header, program table, section
//! table and string tables. Nothing is copied but the fixed-size records,
//! which are spelt out of the bytes one number at a time.
//!
//! An image is meant to lie on a four-byte boundary, and so is each record
//! in it. Where a buffer lies is not part of what it holds, so every
//! constructor that asks for it comes twice: under its plain name it asks the
//! machine, and under the name that ends in `_at` it is told. What the second
//! one returns is fixed by its arguments.

pub mod elf;
pub mod error;
pub mod flags;
pub mod header;
pub mod kinds;
pub mod laws;
pub mod layout;
pub mod program;
pub mod section;
pub mod strtab;
pub mod table;
pub mod trusted;
pub mod units;

pub use elf::Elf;
pub use error::Error;
pub use flags::{ProgramFlags, SectionFlags};
pub use header::Header;
pub use kinds::{FileType, Machine, ProgramType, SectionType};
pub use program::{Program, ProgramHeader};
pub use section::{Section, SectionHeader};
pub use strtab::StringTable;
pub use table::{TableEntry, TableIter};
pub use units::{Address, Offset};
