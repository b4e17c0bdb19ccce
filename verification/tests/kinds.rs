use elf_riscv32::{Error, FileType, Machine, ProgramType, SectionType};

const FILE_TYPES: [(u16, &str); 5] =
    [(0, "None"), (1, "Relocatable"), (2, "Executable"), (3, "SharedObject"), (4, "Core")];

const PROGRAM_TYPES: [(u32, &str); 9] = [
    (0, "Null"),
    (1, "Load"),
    (2, "Dynamic"),
    (3, "Interpreter"),
    (4, "Note"),
    (6, "ProgramHeader"),
    (7, "ThreadLocalStorage"),
    (0x6474E551, "GnuStack"),
    (0x70000003, "RiscVAttributes"),
];

const SECTION_TYPES: [(u32, &str); 16] = [
    (0, "Null"),
    (1, "Program"),
    (2, "SymbolTable"),
    (3, "StringTable"),
    (4, "Rela"),
    (5, "HashTable"),
    (6, "Dynamic"),
    (7, "Note"),
    (8, "NoBits"),
    (9, "Rel"),
    (11, "DynamicSymbolTable"),
    (14, "InitArray"),
    (15, "FiniArray"),
    (16, "PreinitArray"),
    (17, "Group"),
    (18, "SymbolIndex"),
];

#[test]
fn declared_file_types_round_trip() {
    for (code, name) in FILE_TYPES {
        let kind = FileType::try_from(code).unwrap();
        assert_eq!(kind, FileType(code));
        assert_eq!(u16::from(kind), code);
        assert_eq!(kind.validate(), Ok(()));
        assert_eq!(kind.name(), Some(name));
    }
}

#[test]
fn every_other_file_type_is_refused_with_its_code() {
    for code in 5..=u16::MAX {
        assert_eq!(FileType::try_from(code), Err(Error::UnsupportedFileType(FileType(code))));
    }
    assert_eq!(FileType(5).validate(), Err(Error::UnsupportedFileType(FileType(5))));
    assert_eq!(FileType(0xffff).name(), None);
}

#[test]
fn file_type_constants_have_their_codes() {
    assert_eq!(FileType::none(), FileType(0));
    assert_eq!(FileType::relocatable(), FileType(1));
    assert_eq!(FileType::executable(), FileType(2));
    assert_eq!(FileType::shared_object(), FileType(3));
    assert_eq!(FileType::core_file(), FileType(4));
}

#[test]
fn the_one_machine_round_trips() {
    let machine = Machine::try_from(243u16).unwrap();
    assert_eq!(machine, Machine::risc_v());
    assert_eq!(u16::from(machine), 243);
    assert_eq!(machine.validate(), Ok(()));
    assert_eq!(machine.name(), Some("RiscV"));
}

#[test]
fn every_other_machine_is_refused_with_its_code() {
    for code in 0..=u16::MAX {
        if code != 243 {
            assert_eq!(Machine::try_from(code), Err(Error::UnsupportedMachine(Machine(code))));
            assert_eq!(Machine(code).validate(), Err(Error::UnsupportedMachine(Machine(code))));
            assert_eq!(Machine(code).name(), None);
        }
    }
}

#[test]
fn declared_program_types_round_trip() {
    for (code, name) in PROGRAM_TYPES {
        let kind = ProgramType::try_from(code).unwrap();
        assert_eq!(kind, ProgramType(code));
        assert_eq!(u32::from(kind), code);
        assert_eq!(kind.validate(), Ok(()));
        assert_eq!(kind.name(), Some(name));
    }
}

#[test]
fn other_program_types_are_refused_with_their_code() {
    for code in [5u32, 8, 9, 0x6474E550, 0x6474E552, 0x70000000, 0x70000004, u32::MAX] {
        assert_eq!(
            ProgramType::try_from(code),
            Err(Error::UnsupportedProgramType(ProgramType(code)))
        );
        assert_eq!(
            ProgramType(code).validate(),
            Err(Error::UnsupportedProgramType(ProgramType(code)))
        );
        assert_eq!(ProgramType(code).name(), None);
    }
}

#[test]
fn program_type_constants_have_their_codes() {
    assert_eq!(ProgramType::null(), ProgramType(0));
    assert_eq!(ProgramType::load(), ProgramType(1));
    assert_eq!(ProgramType::dynamic(), ProgramType(2));
    assert_eq!(ProgramType::interpreter(), ProgramType(3));
    assert_eq!(ProgramType::note(), ProgramType(4));
    assert_eq!(ProgramType::program_header(), ProgramType(6));
    assert_eq!(ProgramType::thread_local_storage(), ProgramType(7));
    assert_eq!(ProgramType::gnu_stack(), ProgramType(0x6474E551));
    assert_eq!(ProgramType::risc_v_attributes(), ProgramType(0x70000003));
}

#[test]
fn declared_section_types_round_trip() {
    for (code, name) in SECTION_TYPES {
        let kind = SectionType::try_from(code).unwrap();
        assert_eq!(kind, SectionType(code));
        assert_eq!(u32::from(kind), code);
        assert_eq!(kind.validate(), Ok(()));
        assert_eq!(kind.name(), Some(name));
    }
}

#[test]
fn other_section_types_are_refused_with_their_code() {
    for code in [10u32, 12, 13, 19, 20, 0x7000_0003, u32::MAX] {
        assert_eq!(
            SectionType::try_from(code),
            Err(Error::UnsupportedSectionType(SectionType(code)))
        );
        assert_eq!(
            SectionType(code).validate(),
            Err(Error::UnsupportedSectionType(SectionType(code)))
        );
        assert_eq!(SectionType(code).name(), None);
    }
}

#[test]
fn section_type_constants_have_their_codes() {
    assert_eq!(SectionType::null(), SectionType(0));
    assert_eq!(SectionType::program(), SectionType(1));
    assert_eq!(SectionType::symbol_table(), SectionType(2));
    assert_eq!(SectionType::string_table(), SectionType(3));
    assert_eq!(SectionType::rela(), SectionType(4));
    assert_eq!(SectionType::hash_table(), SectionType(5));
    assert_eq!(SectionType::dynamic(), SectionType(6));
    assert_eq!(SectionType::note(), SectionType(7));
    assert_eq!(SectionType::no_bits(), SectionType(8));
    assert_eq!(SectionType::rel(), SectionType(9));
    assert_eq!(SectionType::dynamic_symbol_table(), SectionType(11));
    assert_eq!(SectionType::init_array(), SectionType(14));
    assert_eq!(SectionType::fini_array(), SectionType(15));
    assert_eq!(SectionType::preinit_array(), SectionType(16));
    assert_eq!(SectionType::group(), SectionType(17));
    assert_eq!(SectionType::symbol_index(), SectionType(18));
}
