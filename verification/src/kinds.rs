//! Closed enumerations: numeric codes of which only a declared set is legal.
//!
//! A value of one of these types wraps the raw code as the image holds it, so
//! it may carry a code that is not declared. `validate` and `try_from` are the
//! boundary at which such a code is rejected; the rejected code comes back
//! inside the error, wrapped in its own type.

use crate::error::Error;
use vstd::prelude::*;
use vstd::std_specs::convert::{FromSpec, FromSpecImpl, TryFromSpec, TryFromSpecImpl};

verus! {

/// What kind of object file an image is.
#[derive(Clone, Copy, PartialEq, Eq, Structural, Debug)]
pub struct FileType(pub u16);

impl FileType {
    #[verifier::allow_in_spec]
    pub fn none() -> FileType
        returns
            FileType(0),
    {
        FileType(0)
    }

    #[verifier::allow_in_spec]
    pub fn relocatable() -> FileType
        returns
            FileType(1),
    {
        FileType(1)
    }

    #[verifier::allow_in_spec]
    pub fn executable() -> FileType
        returns
            FileType(2),
    {
        FileType(2)
    }

    #[verifier::allow_in_spec]
    pub fn shared_object() -> FileType
        returns
            FileType(3),
    {
        FileType(3)
    }

    #[verifier::allow_in_spec]
    pub fn core_file() -> FileType
        returns
            FileType(4),
    {
        FileType(4)
    }

    /// Whether the code is one of the declared ones.
    pub open spec fn is_declared(self) -> bool {
        ||| self == FileType::none()
        ||| self == FileType::relocatable()
        ||| self == FileType::executable()
        ||| self == FileType::shared_object()
        ||| self == FileType::core_file()
    }

    /// The symbolic name of a declared code.
    pub open spec fn spec_name(self) -> Option<&'static str> {
        if self == FileType::none() {
            Some("None")
        } else if self == FileType::relocatable() {
            Some("Relocatable")
        } else if self == FileType::executable() {
            Some("Executable")
        } else if self == FileType::shared_object() {
            Some("SharedObject")
        } else if self == FileType::core_file() {
            Some("Core")
        } else {
            None
        }
    }

    /// Accepts a declared code and rejects any other, handing it back in the error.
    pub fn validate(self) -> (r: Result<(), Error>)
        ensures
            self.is_declared() ==> r == Ok::<(), Error>(()),
            !self.is_declared() ==> r == Err::<(), Error>(Error::UnsupportedFileType(self)),
    {
        match self.0 {
            0 | 1 | 2 | 3 | 4 => Ok(()),
            _ => Err(Error::UnsupportedFileType(self)),
        }
    }

    /// The symbolic name of the code, or nothing for a code that is not declared.
    pub fn name(self) -> (r: Option<&'static str>)
        ensures
            r == self.spec_name(),
            r is Some <==> self.is_declared(),
    {
        match self.0 {
            0 => Some("None"),
            1 => Some("Relocatable"),
            2 => Some("Executable"),
            3 => Some("SharedObject"),
            4 => Some("Core"),
            _ => None,
        }
    }

    /// Every declared code converts to a value that converts back to the
    /// same code. Every other code is refused, and the error holds it.
    pub proof fn lemma_round_trip(raw: u16)
        ensures
            ({
                let converted = <FileType as TryFromSpec<u16>>::try_from_spec(raw);
                let back = <u16 as FromSpec<FileType>>::from_spec(FileType(raw));
                if raw == 0
                    || raw == 1
                    || raw == 2
                    || raw == 3
                    || raw == 4 {
                    converted == Ok::<FileType, Error>(FileType(raw)) && back == raw
                } else {
                    converted == Err::<FileType, Error>(
                        Error::UnsupportedFileType(FileType(raw)),
                    )
                }
            }),
    {
    }
}

impl TryFrom<u16> for FileType {
    type Error = Error;

    fn try_from(value: u16) -> (r: Result<Self, Error>) {
        match FileType(value).validate() {
            Ok(()) => Ok(FileType(value)),
            Err(e) => Err(e),
        }
    }
}

impl TryFromSpecImpl<u16> for FileType {
    open spec fn obeys_try_from_spec() -> bool {
        true
    }

    open spec fn try_from_spec(v: u16) -> Result<Self, Self::Error> {
        if FileType(v).is_declared() {
            Ok(FileType(v))
        } else {
            Err(Error::UnsupportedFileType(FileType(v)))
        }
    }
}

impl From<FileType> for u16 {
    fn from(value: FileType) -> (r: u16) {
        value.0
    }
}

impl FromSpecImpl<FileType> for u16 {
    open spec fn obeys_from_spec() -> bool {
        true
    }

    open spec fn from_spec(v: FileType) -> u16 {
        v.0
    }
}

/// The architecture an image was built for.
#[derive(Clone, Copy, PartialEq, Eq, Structural, Debug)]
pub struct Machine(pub u16);

impl Machine {
    #[verifier::allow_in_spec]
    pub fn risc_v() -> Machine
        returns
            Machine(243),
    {
        Machine(243)
    }

    /// Whether the code is one of the declared ones.
    pub open spec fn is_declared(self) -> bool {
        ||| self == Machine::risc_v()
    }

    /// The symbolic name of a declared code.
    pub open spec fn spec_name(self) -> Option<&'static str> {
        if self == Machine::risc_v() {
            Some("RiscV")
        } else {
            None
        }
    }

    /// Accepts a declared code and rejects any other, handing it back in the error.
    pub fn validate(self) -> (r: Result<(), Error>)
        ensures
            self.is_declared() ==> r == Ok::<(), Error>(()),
            !self.is_declared() ==> r == Err::<(), Error>(Error::UnsupportedMachine(self)),
    {
        match self.0 {
            243 => Ok(()),
            _ => Err(Error::UnsupportedMachine(self)),
        }
    }

    /// The symbolic name of the code, or nothing for a code that is not declared.
    pub fn name(self) -> (r: Option<&'static str>)
        ensures
            r == self.spec_name(),
            r is Some <==> self.is_declared(),
    {
        match self.0 {
            243 => Some("RiscV"),
            _ => None,
        }
    }

    /// Every declared code converts to a value that converts back to the
    /// same code. Every other code is refused, and the error holds it.
    pub proof fn lemma_round_trip(raw: u16)
        ensures
            ({
                let converted = <Machine as TryFromSpec<u16>>::try_from_spec(raw);
                let back = <u16 as FromSpec<Machine>>::from_spec(Machine(raw));
                if raw == 243 {
                    converted == Ok::<Machine, Error>(Machine(raw)) && back == raw
                } else {
                    converted == Err::<Machine, Error>(
                        Error::UnsupportedMachine(Machine(raw)),
                    )
                }
            }),
    {
    }
}

impl TryFrom<u16> for Machine {
    type Error = Error;

    fn try_from(value: u16) -> (r: Result<Self, Error>) {
        match Machine(value).validate() {
            Ok(()) => Ok(Machine(value)),
            Err(e) => Err(e),
        }
    }
}

impl TryFromSpecImpl<u16> for Machine {
    open spec fn obeys_try_from_spec() -> bool {
        true
    }

    open spec fn try_from_spec(v: u16) -> Result<Self, Self::Error> {
        if Machine(v).is_declared() {
            Ok(Machine(v))
        } else {
            Err(Error::UnsupportedMachine(Machine(v)))
        }
    }
}

impl From<Machine> for u16 {
    fn from(value: Machine) -> (r: u16) {
        value.0
    }
}

impl FromSpecImpl<Machine> for u16 {
    open spec fn obeys_from_spec() -> bool {
        true
    }

    open spec fn from_spec(v: Machine) -> u16 {
        v.0
    }
}

/// What a program segment is for.
#[derive(Clone, Copy, PartialEq, Eq, Structural, Debug)]
pub struct ProgramType(pub u32);

impl ProgramType {
    #[verifier::allow_in_spec]
    pub fn null() -> ProgramType
        returns
            ProgramType(0),
    {
        ProgramType(0)
    }

    #[verifier::allow_in_spec]
    pub fn load() -> ProgramType
        returns
            ProgramType(1),
    {
        ProgramType(1)
    }

    #[verifier::allow_in_spec]
    pub fn dynamic() -> ProgramType
        returns
            ProgramType(2),
    {
        ProgramType(2)
    }

    #[verifier::allow_in_spec]
    pub fn interpreter() -> ProgramType
        returns
            ProgramType(3),
    {
        ProgramType(3)
    }

    #[verifier::allow_in_spec]
    pub fn note() -> ProgramType
        returns
            ProgramType(4),
    {
        ProgramType(4)
    }

    #[verifier::allow_in_spec]
    pub fn program_header() -> ProgramType
        returns
            ProgramType(6),
    {
        ProgramType(6)
    }

    #[verifier::allow_in_spec]
    pub fn thread_local_storage() -> ProgramType
        returns
            ProgramType(7),
    {
        ProgramType(7)
    }

    #[verifier::allow_in_spec]
    pub fn gnu_stack() -> ProgramType
        returns
            ProgramType(0x6474E551),
    {
        ProgramType(0x6474E551)
    }

    #[verifier::allow_in_spec]
    pub fn risc_v_attributes() -> ProgramType
        returns
            ProgramType(0x70000003),
    {
        ProgramType(0x70000003)
    }

    /// Whether the code is one of the declared ones.
    pub open spec fn is_declared(self) -> bool {
        ||| self == ProgramType::null()
        ||| self == ProgramType::load()
        ||| self == ProgramType::dynamic()
        ||| self == ProgramType::interpreter()
        ||| self == ProgramType::note()
        ||| self == ProgramType::program_header()
        ||| self == ProgramType::thread_local_storage()
        ||| self == ProgramType::gnu_stack()
        ||| self == ProgramType::risc_v_attributes()
    }

    /// The symbolic name of a declared code.
    pub open spec fn spec_name(self) -> Option<&'static str> {
        if self == ProgramType::null() {
            Some("Null")
        } else if self == ProgramType::load() {
            Some("Load")
        } else if self == ProgramType::dynamic() {
            Some("Dynamic")
        } else if self == ProgramType::interpreter() {
            Some("Interpreter")
        } else if self == ProgramType::note() {
            Some("Note")
        } else if self == ProgramType::program_header() {
            Some("ProgramHeader")
        } else if self == ProgramType::thread_local_storage() {
            Some("ThreadLocalStorage")
        } else if self == ProgramType::gnu_stack() {
            Some("GnuStack")
        } else if self == ProgramType::risc_v_attributes() {
            Some("RiscVAttributes")
        } else {
            None
        }
    }

    /// Accepts a declared code and rejects any other, handing it back in the error.
    pub fn validate(self) -> (r: Result<(), Error>)
        ensures
            self.is_declared() ==> r == Ok::<(), Error>(()),
            !self.is_declared() ==> r == Err::<(), Error>(Error::UnsupportedProgramType(self)),
    {
        match self.0 {
            0 | 1 | 2 | 3 | 4 | 6 | 7 | 0x6474E551 | 0x70000003 => Ok(()),
            _ => Err(Error::UnsupportedProgramType(self)),
        }
    }

    /// The symbolic name of the code, or nothing for a code that is not declared.
    pub fn name(self) -> (r: Option<&'static str>)
        ensures
            r == self.spec_name(),
            r is Some <==> self.is_declared(),
    {
        match self.0 {
            0 => Some("Null"),
            1 => Some("Load"),
            2 => Some("Dynamic"),
            3 => Some("Interpreter"),
            4 => Some("Note"),
            6 => Some("ProgramHeader"),
            7 => Some("ThreadLocalStorage"),
            0x6474E551 => Some("GnuStack"),
            0x70000003 => Some("RiscVAttributes"),
            _ => None,
        }
    }

    /// Every declared code converts to a value that converts back to the
    /// same code. Every other code is refused, and the error holds it.
    pub proof fn lemma_round_trip(raw: u32)
        ensures
            ({
                let converted = <ProgramType as TryFromSpec<u32>>::try_from_spec(raw);
                let back = <u32 as FromSpec<ProgramType>>::from_spec(ProgramType(raw));
                if raw == 0
                    || raw == 1
                    || raw == 2
                    || raw == 3
                    || raw == 4
                    || raw == 6
                    || raw == 7
                    || raw == 0x6474E551
                    || raw == 0x70000003 {
                    converted == Ok::<ProgramType, Error>(ProgramType(raw)) && back == raw
                } else {
                    converted == Err::<ProgramType, Error>(
                        Error::UnsupportedProgramType(ProgramType(raw)),
                    )
                }
            }),
    {
    }
}

impl TryFrom<u32> for ProgramType {
    type Error = Error;

    fn try_from(value: u32) -> (r: Result<Self, Error>) {
        match ProgramType(value).validate() {
            Ok(()) => Ok(ProgramType(value)),
            Err(e) => Err(e),
        }
    }
}

impl TryFromSpecImpl<u32> for ProgramType {
    open spec fn obeys_try_from_spec() -> bool {
        true
    }

    open spec fn try_from_spec(v: u32) -> Result<Self, Self::Error> {
        if ProgramType(v).is_declared() {
            Ok(ProgramType(v))
        } else {
            Err(Error::UnsupportedProgramType(ProgramType(v)))
        }
    }
}

impl From<ProgramType> for u32 {
    fn from(value: ProgramType) -> (r: u32) {
        value.0
    }
}

impl FromSpecImpl<ProgramType> for u32 {
    open spec fn obeys_from_spec() -> bool {
        true
    }

    open spec fn from_spec(v: ProgramType) -> u32 {
        v.0
    }
}

/// What a section holds.
#[derive(Clone, Copy, PartialEq, Eq, Structural, Debug)]
pub struct SectionType(pub u32);

impl SectionType {
    #[verifier::allow_in_spec]
    pub fn null() -> SectionType
        returns
            SectionType(0),
    {
        SectionType(0)
    }

    #[verifier::allow_in_spec]
    pub fn program() -> SectionType
        returns
            SectionType(1),
    {
        SectionType(1)
    }

    #[verifier::allow_in_spec]
    pub fn symbol_table() -> SectionType
        returns
            SectionType(2),
    {
        SectionType(2)
    }

    #[verifier::allow_in_spec]
    pub fn string_table() -> SectionType
        returns
            SectionType(3),
    {
        SectionType(3)
    }

    #[verifier::allow_in_spec]
    pub fn rela() -> SectionType
        returns
            SectionType(4),
    {
        SectionType(4)
    }

    #[verifier::allow_in_spec]
    pub fn hash_table() -> SectionType
        returns
            SectionType(5),
    {
        SectionType(5)
    }

    #[verifier::allow_in_spec]
    pub fn dynamic() -> SectionType
        returns
            SectionType(6),
    {
        SectionType(6)
    }

    #[verifier::allow_in_spec]
    pub fn note() -> SectionType
        returns
            SectionType(7),
    {
        SectionType(7)
    }

    #[verifier::allow_in_spec]
    pub fn no_bits() -> SectionType
        returns
            SectionType(8),
    {
        SectionType(8)
    }

    #[verifier::allow_in_spec]
    pub fn rel() -> SectionType
        returns
            SectionType(9),
    {
        SectionType(9)
    }

    #[verifier::allow_in_spec]
    pub fn dynamic_symbol_table() -> SectionType
        returns
            SectionType(11),
    {
        SectionType(11)
    }

    #[verifier::allow_in_spec]
    pub fn init_array() -> SectionType
        returns
            SectionType(14),
    {
        SectionType(14)
    }

    #[verifier::allow_in_spec]
    pub fn fini_array() -> SectionType
        returns
            SectionType(15),
    {
        SectionType(15)
    }

    #[verifier::allow_in_spec]
    pub fn preinit_array() -> SectionType
        returns
            SectionType(16),
    {
        SectionType(16)
    }

    #[verifier::allow_in_spec]
    pub fn group() -> SectionType
        returns
            SectionType(17),
    {
        SectionType(17)
    }

    #[verifier::allow_in_spec]
    pub fn symbol_index() -> SectionType
        returns
            SectionType(18),
    {
        SectionType(18)
    }

    /// Whether the code is one of the declared ones.
    pub open spec fn is_declared(self) -> bool {
        ||| self == SectionType::null()
        ||| self == SectionType::program()
        ||| self == SectionType::symbol_table()
        ||| self == SectionType::string_table()
        ||| self == SectionType::rela()
        ||| self == SectionType::hash_table()
        ||| self == SectionType::dynamic()
        ||| self == SectionType::note()
        ||| self == SectionType::no_bits()
        ||| self == SectionType::rel()
        ||| self == SectionType::dynamic_symbol_table()
        ||| self == SectionType::init_array()
        ||| self == SectionType::fini_array()
        ||| self == SectionType::preinit_array()
        ||| self == SectionType::group()
        ||| self == SectionType::symbol_index()
    }

    /// The symbolic name of a declared code.
    pub open spec fn spec_name(self) -> Option<&'static str> {
        if self == SectionType::null() {
            Some("Null")
        } else if self == SectionType::program() {
            Some("Program")
        } else if self == SectionType::symbol_table() {
            Some("SymbolTable")
        } else if self == SectionType::string_table() {
            Some("StringTable")
        } else if self == SectionType::rela() {
            Some("Rela")
        } else if self == SectionType::hash_table() {
            Some("HashTable")
        } else if self == SectionType::dynamic() {
            Some("Dynamic")
        } else if self == SectionType::note() {
            Some("Note")
        } else if self == SectionType::no_bits() {
            Some("NoBits")
        } else if self == SectionType::rel() {
            Some("Rel")
        } else if self == SectionType::dynamic_symbol_table() {
            Some("DynamicSymbolTable")
        } else if self == SectionType::init_array() {
            Some("InitArray")
        } else if self == SectionType::fini_array() {
            Some("FiniArray")
        } else if self == SectionType::preinit_array() {
            Some("PreinitArray")
        } else if self == SectionType::group() {
            Some("Group")
        } else if self == SectionType::symbol_index() {
            Some("SymbolIndex")
        } else {
            None
        }
    }

    /// Accepts a declared code and rejects any other, handing it back in the error.
    pub fn validate(self) -> (r: Result<(), Error>)
        ensures
            self.is_declared() ==> r == Ok::<(), Error>(()),
            !self.is_declared() ==> r == Err::<(), Error>(Error::UnsupportedSectionType(self)),
    {
        match self.0 {
            0 | 1 | 2 | 3 | 4 | 5 | 6 | 7 | 8 | 9 | 11 | 14 | 15 | 16 | 17 | 18 => Ok(()),
            _ => Err(Error::UnsupportedSectionType(self)),
        }
    }

    /// The symbolic name of the code, or nothing for a code that is not declared.
    pub fn name(self) -> (r: Option<&'static str>)
        ensures
            r == self.spec_name(),
            r is Some <==> self.is_declared(),
    {
        match self.0 {
            0 => Some("Null"),
            1 => Some("Program"),
            2 => Some("SymbolTable"),
            3 => Some("StringTable"),
            4 => Some("Rela"),
            5 => Some("HashTable"),
            6 => Some("Dynamic"),
            7 => Some("Note"),
            8 => Some("NoBits"),
            9 => Some("Rel"),
            11 => Some("DynamicSymbolTable"),
            14 => Some("InitArray"),
            15 => Some("FiniArray"),
            16 => Some("PreinitArray"),
            17 => Some("Group"),
            18 => Some("SymbolIndex"),
            _ => None,
        }
    }

    /// Every declared code converts to a value that converts back to the
    /// same code. Every other code is refused, and the error holds it.
    pub proof fn lemma_round_trip(raw: u32)
        ensures
            ({
                let converted = <SectionType as TryFromSpec<u32>>::try_from_spec(raw);
                let back = <u32 as FromSpec<SectionType>>::from_spec(SectionType(raw));
                if raw == 0
                    || raw == 1
                    || raw == 2
                    || raw == 3
                    || raw == 4
                    || raw == 5
                    || raw == 6
                    || raw == 7
                    || raw == 8
                    || raw == 9
                    || raw == 11
                    || raw == 14
                    || raw == 15
                    || raw == 16
                    || raw == 17
                    || raw == 18 {
                    converted == Ok::<SectionType, Error>(SectionType(raw)) && back == raw
                } else {
                    converted == Err::<SectionType, Error>(
                        Error::UnsupportedSectionType(SectionType(raw)),
                    )
                }
            }),
    {
    }
}

impl TryFrom<u32> for SectionType {
    type Error = Error;

    fn try_from(value: u32) -> (r: Result<Self, Error>) {
        match SectionType(value).validate() {
            Ok(()) => Ok(SectionType(value)),
            Err(e) => Err(e),
        }
    }
}

impl TryFromSpecImpl<u32> for SectionType {
    open spec fn obeys_try_from_spec() -> bool {
        true
    }

    open spec fn try_from_spec(v: u32) -> Result<Self, Self::Error> {
        if SectionType(v).is_declared() {
            Ok(SectionType(v))
        } else {
            Err(Error::UnsupportedSectionType(SectionType(v)))
        }
    }
}

impl From<SectionType> for u32 {
    fn from(value: SectionType) -> (r: u32) {
        value.0
    }
}

impl FromSpecImpl<SectionType> for u32 {
    open spec fn obeys_from_spec() -> bool {
        true
    }

    open spec fn from_spec(v: SectionType) -> u32 {
        v.0
    }
}
} // verus!
