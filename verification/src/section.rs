//! The section table: the parts an image is linked from.

use crate::error::Error;
use crate::flags::SectionFlags;
use crate::kinds::SectionType;
use crate::layout::{is_aligned, le_u32, outcome, payload, read_u32, slice_payload};
use crate::table::TableEntry;
use crate::trusted::address_of;
use crate::units::{Address, Offset};
use vstd::prelude::*;

verus! {

/// The number of bytes a section header takes.
pub const SECTION_HEADER_SIZE: usize = 40;

/// One record of the section table. Neither its type nor its flags have been validated.
#[derive(Debug, Clone, Copy, PartialEq, Eq)]
pub struct SectionHeader {
    /// Where in the table of section names the section's name starts.
    pub name: u32,
    pub ty: SectionType,
    pub flags: SectionFlags,
    pub address: Address,
    /// Where in the image the section's bytes start.
    pub offset: Offset,
    /// How many bytes the section takes.
    pub size: u32,
    pub link: u32,
    pub info: u32,
    pub alignment: u32,
    /// The size of one entry, where the section is a table of them; else 0.
    pub entry_size: u32,
}

impl SectionHeader {
    /// The record that the first 40 bytes of `s` spell out.
    pub open spec fn decode(s: Seq<u8>) -> SectionHeader
        recommends
            s.len() >= SECTION_HEADER_SIZE,
    {
        SectionHeader {
            name: le_u32(s, 0),
            ty: SectionType(le_u32(s, 4)),
            flags: SectionFlags(le_u32(s, 8)),
            address: Address(le_u32(s, 12)),
            offset: Offset(le_u32(s, 16)),
            size: le_u32(s, 20),
            link: le_u32(s, 24),
            info: le_u32(s, 28),
            alignment: le_u32(s, 32),
            entry_size: le_u32(s, 36),
        }
    }

    /// What decoding a record from `s` gives, where `aligned` says whether
    /// `s` starts on a four-byte boundary: the length is looked at first.
    pub open spec fn parse(aligned: bool, s: Seq<u8>) -> Result<SectionHeader, Error> {
        if s.len() < SECTION_HEADER_SIZE {
            Err(Error::UnexpectedEoF)
        } else if !aligned {
            Err(Error::Unaligned)
        } else {
            Ok(SectionHeader::decode(s))
        }
    }

    /// The bytes of `elf` that the record describes: `size` bytes from `offset`.
    pub open spec fn spec_data(self, elf: Seq<u8>) -> Result<Seq<u8>, Error> {
        payload(elf, self.offset, self.size)
    }

    /// Decodes a record from the start of `header`, whose first byte lies at `address`.
    pub fn new_at(address: usize, header: &[u8]) -> (r: Result<SectionHeader, Error>)
        ensures
            r == SectionHeader::parse(is_aligned(address as int), header@),
    {
        if header.len() < SECTION_HEADER_SIZE {
            return Err(Error::UnexpectedEoF);
        }
        if address % 4 != 0 {
            return Err(Error::Unaligned);
        }
        Ok(SectionHeader {
            name: read_u32(header, 0),
            ty: SectionType(read_u32(header, 4)),
            flags: SectionFlags(read_u32(header, 8)),
            address: Address(read_u32(header, 12)),
            offset: Offset(read_u32(header, 16)),
            size: read_u32(header, 20),
            link: read_u32(header, 24),
            info: read_u32(header, 28),
            alignment: read_u32(header, 32),
            entry_size: read_u32(header, 36),
        })
    }

    /// Like [`SectionHeader::new_at`], at the address where `header` lies.
    pub fn new(header: &[u8]) -> (r: Result<SectionHeader, Error>)
        ensures
            exists|aligned: bool| r == SectionHeader::parse(aligned, header@),
    {
        let address: usize = address_of(header);
        let r = SectionHeader::new_at(address, header);
        assert(r == SectionHeader::parse(is_aligned(address as int), header@));
        r
    }

    /// The bytes of the image `elf` that the record describes.
    pub fn data<'a>(&self, elf: &'a [u8]) -> (r: Result<&'a [u8], Error>)
        ensures
            outcome(r) == self.spec_data(elf@),
    {
        slice_payload(elf, self.offset, self.size)
    }
}

/// A section header and the bytes it describes.
#[derive(Debug, Clone, Copy, PartialEq, Eq)]
pub struct Section<'a> {
    pub header: SectionHeader,
    pub data: &'a [u8],
}

/// What a [`Section`] is made of.
pub struct SectionView {
    pub header: SectionHeader,
    pub data: Seq<u8>,
}

impl<'a> View for Section<'a> {
    type V = SectionView;

    open spec fn view(&self) -> SectionView {
        SectionView { header: self.header, data: self.data@ }
    }
}

impl<'a> Section<'a> {
    pub fn new(header: SectionHeader, data: &'a [u8]) -> (r: Self)
        ensures
            r.header == header,
            r.data@ == data@,
    {
        Section { header, data }
    }

    /// Whether the section is of type `ty`; the error holds both types.
    pub open spec fn spec_check_type(&self, ty: SectionType) -> Result<(), Error> {
        if self.header.ty == ty {
            Ok(())
        } else {
            Err(Error::WrongSectionType { expected: ty, actual: self.header.ty })
        }
    }

    /// Whether the section has every flag of `flags`; the error holds both sets.
    pub open spec fn spec_check_flag(&self, flags: SectionFlags) -> Result<(), Error> {
        if self.header.flags.spec_all(flags) {
            Ok(())
        } else {
            Err(Error::WrongSectionFlags { expected: flags, actual: self.header.flags })
        }
    }

    /// Ensure that the type of the section matches that expected, returning an `Err` otherwise.
    pub fn check_type(&self, ty: SectionType) -> (r: Result<(), Error>)
        ensures
            r == self.spec_check_type(ty),
    {
        if self.header.ty != ty {
            Err(Error::WrongSectionType { expected: ty, actual: self.header.ty })
        } else {
            Ok(())
        }
    }

    /// Ensure that the section has all of the flags expected, returning an `Err` otherwise.
    pub fn check_flag(&self, flags: SectionFlags) -> (r: Result<(), Error>)
        ensures
            r == self.spec_check_flag(flags),
    {
        if self.header.flags.all(flags) {
            Ok(())
        } else {
            Err(Error::WrongSectionFlags { expected: flags, actual: self.header.flags })
        }
    }
}

impl<'a> TableEntry<'a> for Section<'a> {
    type Header = SectionHeader;

    /// The record at the start of `header`, with the bytes of `elf` that it describes.
    open spec fn entry(aligned: bool, elf: Seq<u8>, header: Seq<u8>) -> Result<SectionView, Error> {
        match SectionHeader::parse(aligned, header) {
            Err(e) => Err(e),
            Ok(h) => match h.spec_data(elf) {
                Err(e) => Err(e),
                Ok(data) => Ok(SectionView { header: h, data }),
            },
        }
    }

    fn new_at(address: usize, elf: &'a [u8], header: &'a [u8]) -> (r: Result<Self, Error>) {
        match SectionHeader::new_at(address, header) {
            Err(e) => Err(e),
            Ok(h) => match h.data(elf) {
                Err(e) => Err(e),
                Ok(data) => Ok(Section::new(h, data)),
            },
        }
    }

    fn new(elf: &'a [u8], header: &'a [u8]) -> (r: Result<Self, Error>) {
        let address: usize = address_of(header);
        let r = Self::new_at(address, elf, header);
        assert(outcome(r) == Self::entry(is_aligned(address as int), elf@, header@));
        r
    }
}

} // verus!
