//! The file header: the fixed 52 bytes an image starts with.

use crate::error::Error;
use crate::kinds::{FileType, Machine};
use crate::layout::{
    advance, find_record, is_aligned, le_u16, le_u32, locate, read_u16, read_u32, word_bytes,
};
use crate::program::ProgramHeader;
use crate::section::SectionHeader;
use crate::trusted::address_of;
use crate::units::{Address, Offset};
use vstd::prelude::*;
use vstd::slice::slice_subrange;

verus! {

/// The number of bytes a file header takes.
pub const HEADER_SIZE: usize = 52;

/// The file header of an image.
///
/// A header that one of the constructors returned has passed every check of
/// [`Header::fault`]. Its file type has not been validated.
#[derive(Debug, Clone, Copy, PartialEq, Eq)]
pub struct Header {
    /// The identification block: magic, class, endianness, version, padding.
    pub ident: [u8; 16],
    pub ty: FileType,
    pub machine: Machine,
    pub version: u32,
    /// Where execution starts.
    pub entry: Address,
    /// Where the program table starts.
    pub ph_offset: Offset,
    /// Where the section table starts.
    pub sh_offset: Offset,
    /// Flags of the processor.
    pub flags: u32,
    pub header_size: u16,
    /// The stride of the program table.
    pub ph_entry_size: u16,
    /// The number of program entries.
    pub ph_count: u16,
    /// The stride of the section table.
    pub sh_entry_size: u16,
    /// The number of section entries.
    pub sh_count: u16,
    /// The index of the section that holds the names of the sections.
    pub section_name_table: u16,
}

impl Header {
    /// The header that the first 52 bytes of `s` spell out, checked or not.
    pub open spec fn decode(s: Seq<u8>) -> Header
        recommends
            s.len() >= HEADER_SIZE,
    {
        Header {
            ident: [
                s[0],
                s[1],
                s[2],
                s[3],
                s[4],
                s[5],
                s[6],
                s[7],
                s[8],
                s[9],
                s[10],
                s[11],
                s[12],
                s[13],
                s[14],
                s[15],
            ],
            ty: FileType(le_u16(s, 16)),
            machine: Machine(le_u16(s, 18)),
            version: le_u32(s, 20),
            entry: Address(le_u32(s, 24)),
            ph_offset: Offset(le_u32(s, 28)),
            sh_offset: Offset(le_u32(s, 32)),
            flags: le_u32(s, 36),
            header_size: le_u16(s, 40),
            ph_entry_size: le_u16(s, 42),
            ph_count: le_u16(s, 44),
            sh_entry_size: le_u16(s, 46),
            sh_count: le_u16(s, 48),
            section_name_table: le_u16(s, 50),
        }
    }

    /// The first check that the header fails, in the order in which they are
    /// made: magic; class and endianness; the two versions; the machine.
    pub open spec fn fault(self) -> Option<Error> {
        if !(self.ident[0] == 0x7f && self.ident[1] == 0x45 && self.ident[2] == 0x4c
            && self.ident[3] == 0x46) {
            Some(Error::InvalidMagic)
        } else if self.ident[4] != 1 || self.ident[5] != 1 {
            Some(Error::InvalidFormat)
        } else if self.ident[6] != 1 || self.version != 1 {
            Some(Error::InvalidVersion)
        } else if !self.machine.is_declared() {
            Some(Error::UnsupportedMachine(self.machine))
        } else {
            None
        }
    }

    /// What decoding a header from `s` gives: the header, or the first of
    /// these that holds: `s` is too short; a check of [`Header::fault`] fails.
    pub open spec fn parse(s: Seq<u8>) -> Result<Header, Error> {
        if s.len() < HEADER_SIZE {
            Err(Error::UnexpectedEoF)
        } else {
            match Header::decode(s).fault() {
                Some(e) => Err(e),
                None => Ok(Header::decode(s)),
            }
        }
    }

    /// What decoding a header gives from bytes that lie at `address`.
    pub open spec fn parse_at(address: usize, s: Seq<u8>) -> Result<Header, Error> {
        if !is_aligned(address as int) {
            Err(Error::Unaligned)
        } else {
            Header::parse(s)
        }
    }

    /// Spells the header out of the first 52 bytes of `elf`, unchecked.
    fn read(elf: &[u8]) -> (h: Header)
        requires
            elf@.len() >= HEADER_SIZE,
        ensures
            h == Header::decode(elf@),
    {
        let ident: [u8; 16] = [
            elf[0],
            elf[1],
            elf[2],
            elf[3],
            elf[4],
            elf[5],
            elf[6],
            elf[7],
            elf[8],
            elf[9],
            elf[10],
            elf[11],
            elf[12],
            elf[13],
            elf[14],
            elf[15],
        ];
        Header {
            ident,
            ty: FileType(read_u16(elf, 16)),
            machine: Machine(read_u16(elf, 18)),
            version: read_u32(elf, 20),
            entry: Address(read_u32(elf, 24)),
            ph_offset: Offset(read_u32(elf, 28)),
            sh_offset: Offset(read_u32(elf, 32)),
            flags: read_u32(elf, 36),
            header_size: read_u16(elf, 40),
            ph_entry_size: read_u16(elf, 42),
            ph_count: read_u16(elf, 44),
            sh_entry_size: read_u16(elf, 46),
            sh_count: read_u16(elf, 48),
            section_name_table: read_u16(elf, 50),
        }
    }

    /// Makes the checks of [`Header::fault`], in their order.
    fn check(self) -> (r: Result<Header, Error>)
        ensures
            r == match self.fault() {
                Some(e) => Err::<Header, Error>(e),
                None => Ok::<Header, Error>(self),
            },
    {
        if !(self.ident[0] == 0x7f && self.ident[1] == 0x45 && self.ident[2] == 0x4c
            && self.ident[3] == 0x46) {
            return Err(Error::InvalidMagic);
        }
        if self.ident[4] != 1 || self.ident[5] != 1 {
            return Err(Error::InvalidFormat);
        }
        if self.ident[6] != 1 || self.version != 1 {
            return Err(Error::InvalidVersion);
        }
        match self.machine.validate() {
            Err(e) => Err(e),
            Ok(()) => Ok(self),
        }
    }

    /// Decodes the header of the image `elf` without asking where `elf` lies.
    ///
    /// The caller vouches that `elf` starts on a four-byte boundary. Nothing
    /// here depends on it: the bytes are read one by one.
    pub fn new_assume_aligned(elf: &[u8]) -> (r: Result<Header, Error>)
        ensures
            r == Header::parse(elf@),
    {
        if elf.len() < HEADER_SIZE {
            return Err(Error::UnexpectedEoF);
        }
        Header::read(elf).check()
    }

    /// Decoding looks at the first 52 bytes alone.
    proof fn lemma_parse_reads_prefix(a: Seq<u8>, b: Seq<u8>)
        requires
            a.len() >= HEADER_SIZE,
            b.len() >= HEADER_SIZE,
            forall|i: int| 0 <= i < HEADER_SIZE ==> a[i] == b[i],
        ensures
            Header::parse(a) == Header::parse(b),
    {
        assert(Header::decode(a) == Header::decode(b));
    }

    /// Decodes the header of an image that is held as words, and so starts
    /// on a four-byte boundary wherever it lies.
    pub fn new(elf: &[u32]) -> (r: Result<Header, Error>)
        ensures
            r == Header::parse(word_bytes(elf@)),
    {
        if elf.len() < HEADER_SIZE / 4 {
            return Err(Error::UnexpectedEoF);
        }
        let mut bytes = [0u8; HEADER_SIZE];
        let mut i: usize = 0;
        while i < HEADER_SIZE / 4
            invariant
                i <= HEADER_SIZE / 4,
                elf@.len() >= HEADER_SIZE / 4,
                forall|j: int| 0 <= j < 4 * i ==> bytes@[j] == word_bytes(elf@)[j],
            decreases HEADER_SIZE / 4 - i,
        {
            let word: u32 = elf[i];
            bytes[4 * i] = (word % 0x100) as u8;
            bytes[4 * i + 1] = (word / 0x100 % 0x100) as u8;
            bytes[4 * i + 2] = (word / 0x1_0000 % 0x100) as u8;
            bytes[4 * i + 3] = (word / 0x100_0000) as u8;
            i += 1;
        }
        proof {
            Header::lemma_parse_reads_prefix(bytes@, word_bytes(elf@));
        }
        Header::new_assume_aligned(bytes.as_slice())
    }

    /// Decodes the header of the image `elf`, whose first byte lies at
    /// `address`: an address that is no multiple of four is refused, whatever
    /// the bytes are.
    pub fn new_at(address: usize, elf: &[u8]) -> (r: Result<Header, Error>)
        ensures
            r == Header::parse_at(address, elf@),
            !is_aligned(address as int) ==> r == Err::<Header, Error>(Error::Unaligned),
    {
        if address % 4 != 0 {
            Err(Error::Unaligned)
        } else {
            Header::new_assume_aligned(elf)
        }
    }

    /// Like [`Header::new_at`], at the address where `elf` lies.
    pub fn new_aligned(elf: &[u8]) -> (r: Result<Header, Error>)
        ensures
            r == Err::<Header, Error>(Error::Unaligned) || r == Header::parse(elf@),
            exists|address: usize| r == Header::parse_at(address, elf@),
    {
        let address: usize = address_of(elf);
        let r = Header::new_at(address, elf);
        assert(r == Header::parse_at(address, elf@));
        r
    }

    /// What looking up the program header `index` gives in the image `elf`,
    /// which lies at `address`: the index is held against the count first,
    /// then the record is located and decoded.
    pub open spec fn spec_program_header(&self, address: usize, elf: Seq<u8>, index: u16) -> Result<
        ProgramHeader,
        Error,
    > {
        if index >= self.ph_count {
            Err(Error::IndexOutOfRange)
        } else {
            match locate(elf.len(), self.ph_offset, self.ph_entry_size, index) {
                Err(e) => Err(e),
                Ok(at) => ProgramHeader::parse(
                    is_aligned(address + at),
                    elf.subrange(at as int, elf.len() as int),
                ),
            }
        }
    }

    /// What looking up the section header `index` gives in the image `elf`,
    /// which lies at `address`: the index is held against the count first,
    /// then the record is located and decoded.
    pub open spec fn spec_section_header(&self, address: usize, elf: Seq<u8>, index: u16) -> Result<
        SectionHeader,
        Error,
    > {
        if index >= self.sh_count {
            Err(Error::IndexOutOfRange)
        } else {
            match locate(elf.len(), self.sh_offset, self.sh_entry_size, index) {
                Err(e) => Err(e),
                Ok(at) => SectionHeader::parse(
                    is_aligned(address + at),
                    elf.subrange(at as int, elf.len() as int),
                ),
            }
        }
    }

    /// The program header `index` of the image `elf`, which lies at `address`.
    pub fn program_header_at(&self, address: usize, elf: &[u8], index: u16) -> (r: Result<
        ProgramHeader,
        Error,
    >)
        ensures
            r == self.spec_program_header(address, elf@, index),
            index >= self.ph_count ==> r == Err::<ProgramHeader, Error>(Error::IndexOutOfRange),
    {
        if index >= self.ph_count {
            Err(Error::IndexOutOfRange)
        } else {
            match find_record(elf.len(), self.ph_offset, self.ph_entry_size, index) {
                Err(e) => Err(e),
                Ok(at) => ProgramHeader::new_at(
                    advance(address, at),
                    slice_subrange(elf, at, elf.len()),
                ),
            }
        }
    }

    /// The section header `index` of the image `elf`, which lies at `address`.
    pub fn section_header_at(&self, address: usize, elf: &[u8], index: u16) -> (r: Result<
        SectionHeader,
        Error,
    >)
        ensures
            r == self.spec_section_header(address, elf@, index),
            index >= self.sh_count ==> r == Err::<SectionHeader, Error>(Error::IndexOutOfRange),
    {
        if index >= self.sh_count {
            Err(Error::IndexOutOfRange)
        } else {
            match find_record(elf.len(), self.sh_offset, self.sh_entry_size, index) {
                Err(e) => Err(e),
                Ok(at) => SectionHeader::new_at(
                    advance(address, at),
                    slice_subrange(elf, at, elf.len()),
                ),
            }
        }
    }

    /// Like [`Header::program_header_at`], at the address where `elf` lies.
    pub fn program_header(&self, elf: &[u8], index: u16) -> (r: Result<ProgramHeader, Error>)
        ensures
            exists|address: usize| r == self.spec_program_header(address, elf@, index),
            index >= self.ph_count ==> r == Err::<ProgramHeader, Error>(Error::IndexOutOfRange),
    {
        let address: usize = address_of(elf);
        let r = self.program_header_at(address, elf, index);
        assert(r == self.spec_program_header(address, elf@, index));
        r
    }

    /// Like [`Header::section_header_at`], at the address where `elf` lies.
    pub fn section_header(&self, elf: &[u8], index: u16) -> (r: Result<SectionHeader, Error>)
        ensures
            exists|address: usize| r == self.spec_section_header(address, elf@, index),
            index >= self.sh_count ==> r == Err::<SectionHeader, Error>(Error::IndexOutOfRange),
    {
        let address: usize = address_of(elf);
        let r = self.section_header_at(address, elf, index);
        assert(r == self.spec_section_header(address, elf@, index));
        r
    }
}

} // verus!
