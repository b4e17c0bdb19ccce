//! The image as a whole.

use crate::error::Error;
use crate::header::Header;
use crate::layout::{is_aligned, outcome};
use crate::program::{Program, ProgramView};
use crate::section::{Section, SectionView};
use crate::strtab::{str_at, StringTable};
use crate::table::{TableIter, TableIterView};
use crate::trusted::address_of;
use vstd::prelude::*;

verus! {

/// A 32bit little-endian RISC-V ELF file.
///
/// It holds the checked file header and the table of section names, and
/// looks every other record up in the borrowed image when it is asked for.
pub struct Elf<'a> {
    /// The image.
    pub data: &'a [u8],
    /// Where the image lies: the address of its first byte.
    pub address: usize,
    /// The file header.
    pub header: Header,
    /// The table of the names of the sections.
    pub section_names: StringTable<'a>,
}

/// What an [`Elf`] is made of.
pub struct ElfView {
    /// The image.
    pub data: Seq<u8>,
    /// Where the image lies.
    pub address: usize,
    /// The file header.
    pub header: Header,
    /// The bytes of the table of section names.
    pub section_names: Seq<u8>,
}

impl<'a> View for Elf<'a> {
    type V = ElfView;

    open spec fn view(&self) -> ElfView {
        ElfView {
            data: self.data@,
            address: self.address,
            header: self.header,
            section_names: self.section_names@,
        }
    }
}

impl<'a> Elf<'a> {
    /// What the program `index` of an image is: its header, looked up by
    /// index, with the bytes that the header describes.
    pub open spec fn spec_program(elf: ElfView, index: u16) -> Result<ProgramView, Error> {
        match elf.header.spec_program_header(elf.address, elf.data, index) {
            Err(e) => Err(e),
            Ok(header) => match header.spec_data(elf.data) {
                Err(e) => Err(e),
                Ok(data) => Ok(ProgramView { header, data }),
            },
        }
    }

    /// What the section `index` of an image is: its header, looked up by
    /// index, with the bytes that the header describes.
    pub open spec fn spec_section(elf: ElfView, index: u16) -> Result<SectionView, Error> {
        match elf.header.spec_section_header(elf.address, elf.data, index) {
            Err(e) => Err(e),
            Ok(header) => match header.spec_data(elf.data) {
                Err(e) => Err(e),
                Ok(data) => Ok(SectionView { header, data }),
            },
        }
    }

    /// What starting a walk over the programs of an image gives.
    pub open spec fn spec_programs(elf: ElfView) -> Result<TableIterView, Error> {
        TableIter::<Program<'a>>::start(
            elf.address,
            elf.data,
            elf.header.ph_offset,
            elf.header.ph_count,
            elf.header.ph_entry_size,
        )
    }

    /// What starting a walk over the sections of an image gives.
    pub open spec fn spec_sections(elf: ElfView) -> Result<TableIterView, Error> {
        TableIter::<Section<'a>>::start(
            elf.address,
            elf.data,
            elf.header.sh_offset,
            elf.header.sh_count,
            elf.header.sh_entry_size,
        )
    }

    /// What opening the image `s`, which lies at `address`, gives. In this
    /// order: the address must be a multiple of four; the header must
    /// decode; the section that the header names as the table of section
    /// names must be there, with its bytes, and be a string table.
    pub open spec fn spec_new(address: usize, s: Seq<u8>) -> Result<ElfView, Error> {
        if !is_aligned(address as int) {
            Err(Error::Unaligned)
        } else {
            match Header::parse(s) {
                Err(e) => Err(e),
                Ok(header) => {
                    let opened = ElfView { data: s, address, header, section_names: Seq::empty() };
                    match Elf::spec_section(opened, header.section_name_table) {
                        Err(e) => Err(e),
                        Ok(section) => match StringTable::spec_new(section) {
                            Err(e) => Err(e),
                            Ok(section_names) => Ok(ElfView { section_names, ..opened }),
                        },
                    }
                },
            }
        }
    }

    /// Opens the image `elf`, whose first byte lies at `address`.
    pub fn new_at(address: usize, elf: &'a [u8]) -> (r: Result<Self, Error>)
        ensures
            outcome(r) == Elf::spec_new(address, elf@),
    {
        if address % 4 != 0 {
            return Err(Error::Unaligned);
        }
        let header = match Header::new_assume_aligned(elf) {
            Err(e) => { return Err(e); },
            Ok(header) => header,
        };
        let names_header = match header.section_header_at(address, elf, header.section_name_table) {
            Err(e) => { return Err(e); },
            Ok(names_header) => names_header,
        };
        let names = match names_header.data(elf) {
            Err(e) => { return Err(e); },
            Ok(names) => names,
        };
        match StringTable::new(Section::new(names_header, names)) {
            Err(e) => Err(e),
            Ok(section_names) => Ok(Elf { data: elf, address, header, section_names }),
        }
    }

    /// Opens the image `elf`, which must start on a four-byte boundary.
    pub fn new(elf: &'a [u8]) -> (r: Result<Self, Error>)
        ensures
            exists|address: usize| outcome(r) == Elf::spec_new(address, elf@),
    {
        let address: usize = address_of(elf);
        let r = Elf::new_at(address, elf);
        assert(outcome(r) == Elf::spec_new(address, elf@));
        r
    }

    /// The program `index`, with its bytes.
    pub fn program(&self, index: u16) -> (r: Result<Program<'a>, Error>)
        ensures
            outcome(r) == Elf::spec_program(self@, index),
            index >= self@.header.ph_count ==> r is Err && r->Err_0 == Error::IndexOutOfRange,
    {
        match self.header.program_header_at(self.address, self.data, index) {
            Err(e) => Err(e),
            Ok(header) => match header.data(self.data) {
                Err(e) => Err(e),
                Ok(data) => Ok(Program::new(header, data)),
            },
        }
    }

    /// Get an iterator over programs.
    pub fn programs(&self) -> (r: Result<TableIter<'a, Program<'a>>, Error>)
        ensures
            outcome(r) == Elf::spec_programs(self@),
    {
        TableIter::new_at(
            self.address,
            self.data,
            self.header.ph_offset,
            self.header.ph_count,
            self.header.ph_entry_size,
        )
    }

    /// Get the section name string given an offset into the section header string table.
    pub fn section_name(&self, section: &Section<'a>) -> (r: Result<&'a str, Error>)
        ensures
            outcome(r) == str_at(self@.section_names, section.header.name),
    {
        self.section_names.get_str(section.header.name)
    }

    /// The section `index`, with its bytes.
    pub fn section(&self, index: u16) -> (r: Result<Section<'a>, Error>)
        ensures
            outcome(r) == Elf::spec_section(self@, index),
            index >= self@.header.sh_count ==> r is Err && r->Err_0 == Error::IndexOutOfRange,
    {
        match self.header.section_header_at(self.address, self.data, index) {
            Err(e) => Err(e),
            Ok(header) => match header.data(self.data) {
                Err(e) => Err(e),
                Ok(data) => Ok(Section::new(header, data)),
            },
        }
    }

    /// Get an iterator over sections.
    pub fn sections(&self) -> (r: Result<TableIter<'a, Section<'a>>, Error>)
        ensures
            outcome(r) == Elf::spec_sections(self@),
    {
        TableIter::new_at(
            self.address,
            self.data,
            self.header.sh_offset,
            self.header.sh_count,
            self.header.sh_entry_size,
        )
    }
}

} // verus!
