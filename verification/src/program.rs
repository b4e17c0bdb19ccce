//! The program table: the segments that are loaded to run the image.

use crate::error::Error;
use crate::flags::ProgramFlags;
use crate::kinds::ProgramType;
use crate::layout::{is_aligned, le_u32, outcome, payload, read_u32, slice_payload};
use crate::table::TableEntry;
use crate::trusted::address_of;
use crate::units::{Address, Offset};
use vstd::prelude::*;

verus! {

/// The number of bytes a program header takes.
pub const PROGRAM_HEADER_SIZE: usize = 32;

/// One record of the program table. Neither its type nor its flags have been validated.
#[derive(Debug, Clone, Copy, PartialEq, Eq)]
pub struct ProgramHeader {
    pub ty: ProgramType,
    /// Where in the image the segment's bytes start.
    pub offset: Offset,
    pub virt_addr: Address,
    pub phys_addr: Address,
    /// How many bytes of the image the segment takes.
    pub file_size: u32,
    /// How many bytes of memory the segment takes.
    pub mem_size: u32,
    pub flags: ProgramFlags,
    pub align: u32,
}

impl ProgramHeader {
    /// The record that the first 32 bytes of `s` spell out.
    pub open spec fn decode(s: Seq<u8>) -> ProgramHeader
        recommends
            s.len() >= PROGRAM_HEADER_SIZE,
    {
        ProgramHeader {
            ty: ProgramType(le_u32(s, 0)),
            offset: Offset(le_u32(s, 4)),
            virt_addr: Address(le_u32(s, 8)),
            phys_addr: Address(le_u32(s, 12)),
            file_size: le_u32(s, 16),
            mem_size: le_u32(s, 20),
            flags: ProgramFlags(le_u32(s, 24)),
            align: le_u32(s, 28),
        }
    }

    /// What decoding a record from `s` gives, where `aligned` says whether
    /// `s` starts on a four-byte boundary: the length is looked at first.
    pub open spec fn parse(aligned: bool, s: Seq<u8>) -> Result<ProgramHeader, Error> {
        if s.len() < PROGRAM_HEADER_SIZE {
            Err(Error::UnexpectedEoF)
        } else if !aligned {
            Err(Error::Unaligned)
        } else {
            Ok(ProgramHeader::decode(s))
        }
    }

    /// The bytes of `elf` that the record describes: `file_size` bytes from `offset`.
    pub open spec fn spec_data(self, elf: Seq<u8>) -> Result<Seq<u8>, Error> {
        payload(elf, self.offset, self.file_size)
    }

    /// Decodes a record from the start of `header`, whose first byte lies at `address`.
    pub fn new_at(address: usize, header: &[u8]) -> (r: Result<ProgramHeader, Error>)
        ensures
            r == ProgramHeader::parse(is_aligned(address as int), header@),
    {
        if header.len() < PROGRAM_HEADER_SIZE {
            return Err(Error::UnexpectedEoF);
        }
        if address % 4 != 0 {
            return Err(Error::Unaligned);
        }
        Ok(ProgramHeader {
            ty: ProgramType(read_u32(header, 0)),
            offset: Offset(read_u32(header, 4)),
            virt_addr: Address(read_u32(header, 8)),
            phys_addr: Address(read_u32(header, 12)),
            file_size: read_u32(header, 16),
            mem_size: read_u32(header, 20),
            flags: ProgramFlags(read_u32(header, 24)),
            align: read_u32(header, 28),
        })
    }

    /// Like [`ProgramHeader::new_at`], at the address where `header` lies.
    pub fn new(header: &[u8]) -> (r: Result<ProgramHeader, Error>)
        ensures
            exists|aligned: bool| r == ProgramHeader::parse(aligned, header@),
    {
        let address: usize = address_of(header);
        let r = ProgramHeader::new_at(address, header);
        assert(r == ProgramHeader::parse(is_aligned(address as int), header@));
        r
    }

    /// The bytes of the image `elf` that the record describes.
    pub fn data<'a>(&self, elf: &'a [u8]) -> (r: Result<&'a [u8], Error>)
        ensures
            outcome(r) == self.spec_data(elf@),
    {
        slice_payload(elf, self.offset, self.file_size)
    }
}

/// A program header and the bytes it describes.
#[derive(Debug, Clone, Copy, PartialEq, Eq)]
pub struct Program<'a> {
    pub header: ProgramHeader,
    pub data: &'a [u8],
}

/// What a [`Program`] is made of.
pub struct ProgramView {
    pub header: ProgramHeader,
    pub data: Seq<u8>,
}

impl<'a> View for Program<'a> {
    type V = ProgramView;

    open spec fn view(&self) -> ProgramView {
        ProgramView { header: self.header, data: self.data@ }
    }
}

impl<'a> Program<'a> {
    pub fn new(header: ProgramHeader, data: &'a [u8]) -> (r: Self)
        ensures
            r.header == header,
            r.data@ == data@,
    {
        Program { header, data }
    }

    /// Whether the program is of type `ty`; the error holds both types.
    pub open spec fn spec_check_type(&self, ty: ProgramType) -> Result<(), Error> {
        if self.header.ty == ty {
            Ok(())
        } else {
            Err(Error::WrongProgramType { expected: ty, actual: self.header.ty })
        }
    }

    /// Whether the program has every flag of `flags`; the error holds both sets.
    pub open spec fn spec_check_flag(&self, flags: ProgramFlags) -> Result<(), Error> {
        if self.header.flags.spec_all(flags) {
            Ok(())
        } else {
            Err(Error::WrongProgramFlags { expected: flags, actual: self.header.flags })
        }
    }

    /// Ensure that the type of the program matches that expected, returning an `Err` otherwise.
    pub fn check_type(&self, ty: ProgramType) -> (r: Result<(), Error>)
        ensures
            r == self.spec_check_type(ty),
    {
        if self.header.ty != ty {
            Err(Error::WrongProgramType { expected: ty, actual: self.header.ty })
        } else {
            Ok(())
        }
    }

    /// Ensure that the program has all of the flags expected, returning an `Err` otherwise.
    pub fn check_flag(&self, flags: ProgramFlags) -> (r: Result<(), Error>)
        ensures
            r == self.spec_check_flag(flags),
    {
        if self.header.flags.all(flags) {
            Ok(())
        } else {
            Err(Error::WrongProgramFlags { expected: flags, actual: self.header.flags })
        }
    }
}

impl<'a> TableEntry<'a> for Program<'a> {
    type Header = ProgramHeader;

    /// The record at the start of `header`, with the bytes of `elf` that it describes.
    open spec fn entry(aligned: bool, elf: Seq<u8>, header: Seq<u8>) -> Result<ProgramView, Error> {
        match ProgramHeader::parse(aligned, header) {
            Err(e) => Err(e),
            Ok(h) => match h.spec_data(elf) {
                Err(e) => Err(e),
                Ok(data) => Ok(ProgramView { header: h, data }),
            },
        }
    }

    fn new_at(address: usize, elf: &'a [u8], header: &'a [u8]) -> (r: Result<Self, Error>) {
        match ProgramHeader::new_at(address, header) {
            Err(e) => Err(e),
            Ok(h) => match h.data(elf) {
                Err(e) => Err(e),
                Ok(data) => Ok(Program::new(h, data)),
            },
        }
    }

    fn new(elf: &'a [u8], header: &'a [u8]) -> (r: Result<Self, Error>) {
        let address: usize = address_of(header);
        let r = Self::new_at(address, elf, header);
        assert(outcome(r) == Self::entry(is_aligned(address as int), elf@, header@));
        r
    }
}

} // verus!
