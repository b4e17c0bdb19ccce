use elf_riscv32::{Error, ProgramFlags, SectionFlags};

const SECTION_BITS: [(u32, &str); 11] = [
    (0x1, "Write"),
    (0x2, "Alloc"),
    (0x4, "Exec"),
    (0x10, "Merge"),
    (0x20, "Strings"),
    (0x40, "InfoLink"),
    (0x80, "LinkOrder"),
    (0x100, "OsNonconforming"),
    (0x200, "Group"),
    (0x400, "Tls"),
    (0x800, "Compressed"),
];

#[test]
fn program_flags_of_declared_bits_round_trip() {
    for raw in 0..8u32 {
        let flags = ProgramFlags::try_from(raw).unwrap();
        assert_eq!(flags, ProgramFlags(raw));
        assert_eq!(u32::from(flags), raw);
    }
}

#[test]
fn program_flags_with_one_undeclared_bit_are_refused_with_the_raw_value() {
    for raw in 0..8u32 {
        for bit in 3..32 {
            let spoilt = raw | (1 << bit);
            assert_eq!(
                ProgramFlags::try_from(spoilt),
                Err(Error::UnsupportedProgramFlags(ProgramFlags(spoilt)))
            );
        }
    }
}

#[test]
fn program_flag_constants_have_their_bits() {
    assert_eq!(ProgramFlags::none(), ProgramFlags(0));
    assert_eq!(ProgramFlags::read(), ProgramFlags(0b001));
    assert_eq!(ProgramFlags::execute(), ProgramFlags(0b010));
    assert_eq!(ProgramFlags::write(), ProgramFlags(0b100));
    assert_eq!(ProgramFlags::mask(), ProgramFlags(0b111));
    assert_eq!(
        ProgramFlags::mask(),
        ProgramFlags::read() | ProgramFlags::execute() | ProgramFlags::write()
    );
}

#[test]
fn section_flags_of_declared_bits_round_trip() {
    for raw in 0..0x1000u32 {
        if raw & 0x8 == 0 {
            let flags = SectionFlags::try_from(raw).unwrap();
            assert_eq!(flags, SectionFlags(raw));
            assert_eq!(u32::from(flags), raw);
        }
    }
}

#[test]
fn section_flags_with_one_undeclared_bit_are_refused_with_the_raw_value() {
    for raw in [0u32, 0x1, 0x20, 0x24, 0xFF7] {
        for bit in (3..4).chain(12..32) {
            let spoilt = raw | (1 << bit);
            assert_eq!(
                SectionFlags::try_from(spoilt),
                Err(Error::UnsupportedSectionFlags(SectionFlags(spoilt)))
            );
        }
    }
}

#[test]
fn section_flag_constants_have_their_bits() {
    assert_eq!(SectionFlags::none(), SectionFlags(0));
    assert_eq!(SectionFlags::write(), SectionFlags(0x1));
    assert_eq!(SectionFlags::allocated(), SectionFlags(0x2));
    assert_eq!(SectionFlags::execute(), SectionFlags(0x4));
    assert_eq!(SectionFlags::merge(), SectionFlags(0x10));
    assert_eq!(SectionFlags::strings(), SectionFlags(0x20));
    assert_eq!(SectionFlags::info_link(), SectionFlags(0x40));
    assert_eq!(SectionFlags::link_order(), SectionFlags(0x80));
    assert_eq!(SectionFlags::os_nonconforming(), SectionFlags(0x100));
    assert_eq!(SectionFlags::group(), SectionFlags(0x200));
    assert_eq!(SectionFlags::tls(), SectionFlags(0x400));
    assert_eq!(SectionFlags::compressed(), SectionFlags(0x800));
    assert_eq!(SectionFlags::mask(), SectionFlags(0xFF7));
    let mut union = SectionFlags::none();
    for (bit, _) in SECTION_BITS {
        union |= SectionFlags(bit);
    }
    assert_eq!(union, SectionFlags::mask());
}

#[test]
fn any_is_a_shared_bit_and_all_is_containment() {
    let read_write = ProgramFlags::read() | ProgramFlags::write();
    assert!(read_write.any(ProgramFlags::read()));
    assert!(read_write.any(ProgramFlags::mask()));
    assert!(!read_write.any(ProgramFlags::execute()));
    assert!(!read_write.any(ProgramFlags::none()));
    assert!(read_write.all(ProgramFlags::read()));
    assert!(read_write.all(read_write));
    assert!(read_write.all(ProgramFlags::none()));
    assert!(!read_write.all(ProgramFlags::mask()));
    assert!(!read_write.all(ProgramFlags::read() | ProgramFlags::execute()));

    let strings = SectionFlags::strings() | SectionFlags::merge();
    assert!(strings.any(SectionFlags::strings() | SectionFlags::tls()));
    assert!(!strings.any(SectionFlags::tls()));
    assert!(strings.all(SectionFlags::strings()));
    assert!(!strings.all(SectionFlags::strings() | SectionFlags::tls()));
}

#[test]
fn the_operators_are_those_of_sets() {
    let a = ProgramFlags(0b011);
    let b = ProgramFlags(0b110);
    assert_eq!(a & b, ProgramFlags(0b010));
    assert_eq!(a | b, ProgramFlags(0b111));
    assert_eq!(a ^ b, ProgramFlags(0b101));
    assert_eq!(!a, ProgramFlags(0xFFFF_FFFC));
    let mut c = a;
    c &= b;
    assert_eq!(c, ProgramFlags(0b010));
    c |= ProgramFlags(0b100);
    assert_eq!(c, ProgramFlags(0b110));
    c ^= ProgramFlags(0b111);
    assert_eq!(c, ProgramFlags(0b001));

    let a = SectionFlags(0x21);
    let b = SectionFlags(0x30);
    assert_eq!(a & b, SectionFlags(0x20));
    assert_eq!(a | b, SectionFlags(0x31));
    assert_eq!(a ^ b, SectionFlags(0x11));
    assert_eq!(!a, SectionFlags(0xFFFF_FFDE));
    let mut c = a;
    c &= b;
    assert_eq!(c, SectionFlags(0x20));
    c |= SectionFlags(0x400);
    assert_eq!(c, SectionFlags(0x420));
    c ^= SectionFlags(0x20);
    assert_eq!(c, SectionFlags(0x400));
}

#[test]
fn names_list_the_declared_bits_that_are_set_in_order() {
    assert_eq!(ProgramFlags::none().names(), Vec::<&str>::new());
    assert_eq!(ProgramFlags(0b101).names(), vec!["Read", "Write"]);
    assert_eq!(ProgramFlags(0b111).names(), vec!["Read", "Exec", "Write"]);
    assert_eq!(ProgramFlags(0xFFFF_FFFA).names(), vec!["Exec"]);
    assert_eq!(SectionFlags(0x26).names(), vec!["Alloc", "Exec", "Strings"]);
    let all: Vec<&str> = SECTION_BITS.iter().map(|(_, name)| *name).collect();
    assert_eq!(SectionFlags::mask().names(), all);
    for (bit, name) in SECTION_BITS {
        assert_eq!(SectionFlags(bit).names(), vec![name]);
    }
}

#[test]
fn the_residual_is_what_is_not_declared() {
    assert_eq!(ProgramFlags(0b101).residual(), ProgramFlags::none());
    assert_eq!(ProgramFlags(0x1d).residual(), ProgramFlags(0x18));
    assert_eq!(SectionFlags(0xFF7).residual(), SectionFlags::none());
    assert_eq!(SectionFlags(0x1028).residual(), SectionFlags(0x1008));
}
