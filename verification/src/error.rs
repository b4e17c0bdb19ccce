//! The one error type of the decoder.

use crate::flags::{ProgramFlags, SectionFlags};
use crate::kinds::{FileType, Machine, ProgramType, SectionType};
use vstd::prelude::*;

verus! {

/// Why an image, or a part of it, could not be decoded.
///
/// Every error reflects malformed or unsupported input; none is transient.
#[derive(Debug, Clone, Copy, PartialEq, Eq)]
#[allow(inconsistent_fields)]
pub enum Error {
    /// An offset or a size does not fit the machine's index type.
    IntegerOverflow,
    /// A table index or a string offset lies beyond its bound.
    IndexOutOfRange,
    /// A buffer, a record or a stride is not on a four-byte boundary.
    Unaligned,
    /// The buffer ends before the bytes that were asked for.
    UnexpectedEoF,
    /// The image does not start with `0x7F 'E' 'L' 'F'`.
    InvalidMagic,
    /// The image is not 32-bit, or not little-endian.
    InvalidFormat,
    /// The identification version or the format version is not 1.
    InvalidVersion,
    /// A file type that is not declared.
    UnsupportedFileType(FileType),
    /// A machine code that is not declared.
    UnsupportedMachine(Machine),
    /// A segment type that is not declared.
    UnsupportedProgramType(ProgramType),
    /// Segment flags with a bit that is not declared; the whole raw value.
    UnsupportedProgramFlags(ProgramFlags),
    /// A section type that is not declared.
    UnsupportedSectionType(SectionType),
    /// Section flags with a bit that is not declared; the whole raw value.
    UnsupportedSectionFlags(SectionFlags),
    /// A segment is not of the type that was expected.
    WrongProgramType { expected: ProgramType, actual: ProgramType },
    /// A segment lacks some of the flags that were expected.
    WrongProgramFlags { expected: ProgramFlags, actual: ProgramFlags },
    /// A section is not of the type that was expected.
    WrongSectionType { expected: SectionType, actual: SectionType },
    /// A section lacks some of the flags that were expected.
    WrongSectionFlags { expected: SectionFlags, actual: SectionFlags },
    /// A string has no terminator before its table ends.
    UnterminatedString,
    /// A string is not UTF-8; what the decoder said of it.
    NotUtf8(std::str::Utf8Error),
}

} // verus!
