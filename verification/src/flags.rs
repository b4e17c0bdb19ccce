//! Closed flag sets: bitmasks of which only the declared bits are legal.
//!
//! A value wraps the raw bits as the image holds them, so it may carry bits
//! that are not declared. `try_from` is the boundary at which such bits are
//! rejected; the rejected raw value comes back inside the error.

use crate::error::Error;
use vstd::prelude::*;
use vstd::std_specs::convert::{FromSpec, FromSpecImpl, TryFromSpec, TryFromSpecImpl};
use vstd::std_specs::ops::{BitAndSpecImpl, BitOrSpecImpl, BitXorSpecImpl, NotSpecImpl};

verus! {

/// What a loaded segment may be used for.
#[derive(Clone, Copy, PartialEq, Eq, Structural, Debug)]
pub struct ProgramFlags(pub u32);

impl ProgramFlags {
    /// The empty set.
    #[verifier::allow_in_spec]
    pub fn none() -> ProgramFlags
        returns
            ProgramFlags(0),
    {
        ProgramFlags(0)
    }

    #[verifier::allow_in_spec]
    pub fn read() -> ProgramFlags
        returns
            ProgramFlags(0x1),
    {
        ProgramFlags(0x1)
    }

    #[verifier::allow_in_spec]
    pub fn execute() -> ProgramFlags
        returns
            ProgramFlags(0x2),
    {
        ProgramFlags(0x2)
    }

    #[verifier::allow_in_spec]
    pub fn write() -> ProgramFlags
        returns
            ProgramFlags(0x4),
    {
        ProgramFlags(0x4)
    }

    /// Every declared bit.
    #[verifier::allow_in_spec]
    pub fn mask() -> ProgramFlags
        returns
            ProgramFlags(0x7),
    {
        ProgramFlags(0x7)
    }

    /// Whether no bit outside the declared ones is set.
    pub open spec fn is_declared(self) -> bool {
        self.0 & !ProgramFlags::mask().0 == 0
    }

    /// Whether the set shares a bit with `bits`.
    pub open spec fn spec_any(self, bits: Self) -> bool {
        self.0 & bits.0 != 0
    }

    /// Whether the set holds every bit of `bits`.
    pub open spec fn spec_all(self, bits: Self) -> bool {
        self.0 & bits.0 == bits.0
    }

    /// The set bits that are not declared.
    pub open spec fn spec_residual(self) -> Self {
        ProgramFlags(self.0 & !ProgramFlags::mask().0)
    }

    /// The names of the declared bits that are set, in the order of declaration.
    pub open spec fn spec_names(self) -> Seq<&'static str> {
        let s = Seq::<&'static str>::empty();
        let s = if self.spec_all(ProgramFlags::read()) {
            s.push("Read")
        } else {
            s
        };
        let s = if self.spec_all(ProgramFlags::execute()) {
            s.push("Exec")
        } else {
            s
        };
        let s = if self.spec_all(ProgramFlags::write()) {
            s.push("Write")
        } else {
            s
        };
        s
    }

    /// Returns true if any of the bits are set.
    #[verifier::when_used_as_spec(spec_any)]
    pub fn any(self, bits: Self) -> (b: bool)
        ensures
            b == self.spec_any(bits),
    {
        self.0 & bits.0 != 0
    }

    /// Returns true if all of the bits are set.
    #[verifier::when_used_as_spec(spec_all)]
    pub fn all(self, bits: Self) -> (b: bool)
        ensures
            b == self.spec_all(bits),
    {
        self.0 & bits.0 == bits.0
    }

    /// The set bits that are not declared; empty for every validated value.
    #[verifier::when_used_as_spec(spec_residual)]
    pub fn residual(self) -> (r: Self)
        ensures
            r == self.spec_residual(),
            r == Self::none() <==> self.is_declared(),
    {
        ProgramFlags(self.0 & !ProgramFlags::mask().0)
    }

    /// The names of the declared bits that are set, in the order of declaration.
    pub fn names(self) -> (v: Vec<&'static str>)
        ensures
            v@ == self.spec_names(),
    {
        let mut v: Vec<&'static str> = Vec::new();
        if self.all(ProgramFlags::read()) {
            v.push("Read");
        }
        if self.all(ProgramFlags::execute()) {
            v.push("Exec");
        }
        if self.all(ProgramFlags::write()) {
            v.push("Write");
        }
        v
    }

    /// The mask is the union of the declared bits.
    pub proof fn lemma_mask_is_union()
        ensures
            ProgramFlags::mask().0 == ProgramFlags::read().0
                | ProgramFlags::execute().0
                | ProgramFlags::write().0,
    {
        assert(0x7u32 == 0x1u32
            | 0x2u32
            | 0x4u32) by (bit_vector);
    }

    /// A raw value made of declared bits alone converts to a value that
    /// converts back to the same raw value.
    pub proof fn lemma_round_trip(raw: u32)
        requires
            raw & !ProgramFlags::mask().0 == 0,
        ensures
            <ProgramFlags as TryFromSpec<u32>>::try_from_spec(raw) == Ok::<ProgramFlags, Error>(
                ProgramFlags(raw),
            ),
            <u32 as FromSpec<ProgramFlags>>::from_spec(ProgramFlags(raw)) == raw,
    {
    }

    /// With any one bit set that is not declared, a raw value is refused,
    /// and the error holds all of it.
    pub proof fn lemma_undeclared_bit_is_refused(raw: u32, bit: u32)
        requires
            bit < 32,
            ProgramFlags::mask().0 & (1u32 << bit) == 0,
        ensures
            ({
                let spoilt = raw | (1u32 << bit);
                let refused = Error::UnsupportedProgramFlags(ProgramFlags(spoilt));
                <ProgramFlags as TryFromSpec<u32>>::try_from_spec(spoilt) == Err::<ProgramFlags, Error>(
                    refused,
                )
            }),
    {
        assert((raw | (1u32 << bit)) & !0x7u32 != 0) by (bit_vector)
            requires
                bit < 32,
                0x7u32 & (1u32 << bit) == 0,
        ;
    }
}

impl core::ops::BitAnd for ProgramFlags {
    type Output = Self;

    fn bitand(self, rhs: Self) -> (r: Self) {
        ProgramFlags(self.0 & rhs.0)
    }
}

impl BitAndSpecImpl for ProgramFlags {
    open spec fn obeys_bitand_spec() -> bool {
        true
    }

    open spec fn bitand_req(self, rhs: Self) -> bool {
        true
    }

    open spec fn bitand_spec(self, rhs: Self) -> Self {
        ProgramFlags(self.0 & rhs.0)
    }
}

impl core::ops::BitOr for ProgramFlags {
    type Output = Self;

    fn bitor(self, rhs: Self) -> (r: Self) {
        ProgramFlags(self.0 | rhs.0)
    }
}

impl BitOrSpecImpl for ProgramFlags {
    open spec fn obeys_bitor_spec() -> bool {
        true
    }

    open spec fn bitor_req(self, rhs: Self) -> bool {
        true
    }

    open spec fn bitor_spec(self, rhs: Self) -> Self {
        ProgramFlags(self.0 | rhs.0)
    }
}

impl core::ops::BitXor for ProgramFlags {
    type Output = Self;

    fn bitxor(self, rhs: Self) -> (r: Self) {
        ProgramFlags(self.0 ^ rhs.0)
    }
}

impl BitXorSpecImpl for ProgramFlags {
    open spec fn obeys_bitxor_spec() -> bool {
        true
    }

    open spec fn bitxor_req(self, rhs: Self) -> bool {
        true
    }

    open spec fn bitxor_spec(self, rhs: Self) -> Self {
        ProgramFlags(self.0 ^ rhs.0)
    }
}

impl core::ops::BitAndAssign for ProgramFlags {
    fn bitand_assign(&mut self, rhs: Self)
        ensures
            *final(self) == ProgramFlags(old(self).0 & rhs.0),
    {
        self.0 = self.0 & rhs.0;
    }
}

impl core::ops::BitOrAssign for ProgramFlags {
    fn bitor_assign(&mut self, rhs: Self)
        ensures
            *final(self) == ProgramFlags(old(self).0 | rhs.0),
    {
        self.0 = self.0 | rhs.0;
    }
}

impl core::ops::BitXorAssign for ProgramFlags {
    fn bitxor_assign(&mut self, rhs: Self)
        ensures
            *final(self) == ProgramFlags(old(self).0 ^ rhs.0),
    {
        self.0 = self.0 ^ rhs.0;
    }
}

impl core::ops::Not for ProgramFlags {
    type Output = Self;

    fn not(self) -> (r: Self) {
        ProgramFlags(!self.0)
    }
}

impl NotSpecImpl for ProgramFlags {
    open spec fn obeys_not_spec() -> bool {
        true
    }

    open spec fn not_req(self) -> bool {
        true
    }

    open spec fn not_spec(self) -> Self {
        ProgramFlags(!self.0)
    }
}

impl TryFrom<u32> for ProgramFlags {
    type Error = Error;

    fn try_from(value: u32) -> (r: Result<Self, Error>) {
        if value & !ProgramFlags::mask().0 == 0 {
            Ok(ProgramFlags(value))
        } else {
            Err(Error::UnsupportedProgramFlags(ProgramFlags(value)))
        }
    }
}

impl TryFromSpecImpl<u32> for ProgramFlags {
    open spec fn obeys_try_from_spec() -> bool {
        true
    }

    open spec fn try_from_spec(v: u32) -> Result<Self, Self::Error> {
        if ProgramFlags(v).is_declared() {
            Ok(ProgramFlags(v))
        } else {
            Err(Error::UnsupportedProgramFlags(ProgramFlags(v)))
        }
    }
}

impl From<ProgramFlags> for u32 {
    fn from(value: ProgramFlags) -> (r: u32) {
        value.0
    }
}

impl FromSpecImpl<ProgramFlags> for u32 {
    open spec fn obeys_from_spec() -> bool {
        true
    }

    open spec fn from_spec(v: ProgramFlags) -> u32 {
        v.0
    }
}

/// The attributes of a section.
#[derive(Clone, Copy, PartialEq, Eq, Structural, Debug)]
pub struct SectionFlags(pub u32);

impl SectionFlags {
    /// The empty set.
    #[verifier::allow_in_spec]
    pub fn none() -> SectionFlags
        returns
            SectionFlags(0),
    {
        SectionFlags(0)
    }

    #[verifier::allow_in_spec]
    pub fn write() -> SectionFlags
        returns
            SectionFlags(0x1),
    {
        SectionFlags(0x1)
    }

    #[verifier::allow_in_spec]
    pub fn allocated() -> SectionFlags
        returns
            SectionFlags(0x2),
    {
        SectionFlags(0x2)
    }

    #[verifier::allow_in_spec]
    pub fn execute() -> SectionFlags
        returns
            SectionFlags(0x4),
    {
        SectionFlags(0x4)
    }

    #[verifier::allow_in_spec]
    pub fn merge() -> SectionFlags
        returns
            SectionFlags(0x10),
    {
        SectionFlags(0x10)
    }

    #[verifier::allow_in_spec]
    pub fn strings() -> SectionFlags
        returns
            SectionFlags(0x20),
    {
        SectionFlags(0x20)
    }

    #[verifier::allow_in_spec]
    pub fn info_link() -> SectionFlags
        returns
            SectionFlags(0x40),
    {
        SectionFlags(0x40)
    }

    #[verifier::allow_in_spec]
    pub fn link_order() -> SectionFlags
        returns
            SectionFlags(0x80),
    {
        SectionFlags(0x80)
    }

    #[verifier::allow_in_spec]
    pub fn os_nonconforming() -> SectionFlags
        returns
            SectionFlags(0x100),
    {
        SectionFlags(0x100)
    }

    #[verifier::allow_in_spec]
    pub fn group() -> SectionFlags
        returns
            SectionFlags(0x200),
    {
        SectionFlags(0x200)
    }

    #[verifier::allow_in_spec]
    pub fn tls() -> SectionFlags
        returns
            SectionFlags(0x400),
    {
        SectionFlags(0x400)
    }

    #[verifier::allow_in_spec]
    pub fn compressed() -> SectionFlags
        returns
            SectionFlags(0x800),
    {
        SectionFlags(0x800)
    }

    /// Every declared bit.
    #[verifier::allow_in_spec]
    pub fn mask() -> SectionFlags
        returns
            SectionFlags(0xFF7),
    {
        SectionFlags(0xFF7)
    }

    /// Whether no bit outside the declared ones is set.
    pub open spec fn is_declared(self) -> bool {
        self.0 & !SectionFlags::mask().0 == 0
    }

    /// Whether the set shares a bit with `bits`.
    pub open spec fn spec_any(self, bits: Self) -> bool {
        self.0 & bits.0 != 0
    }

    /// Whether the set holds every bit of `bits`.
    pub open spec fn spec_all(self, bits: Self) -> bool {
        self.0 & bits.0 == bits.0
    }

    /// The set bits that are not declared.
    pub open spec fn spec_residual(self) -> Self {
        SectionFlags(self.0 & !SectionFlags::mask().0)
    }

    /// The names of the declared bits that are set, in the order of declaration.
    pub open spec fn spec_names(self) -> Seq<&'static str> {
        let s = Seq::<&'static str>::empty();
        let s = if self.spec_all(SectionFlags::write()) {
            s.push("Write")
        } else {
            s
        };
        let s = if self.spec_all(SectionFlags::allocated()) {
            s.push("Alloc")
        } else {
            s
        };
        let s = if self.spec_all(SectionFlags::execute()) {
            s.push("Exec")
        } else {
            s
        };
        let s = if self.spec_all(SectionFlags::merge()) {
            s.push("Merge")
        } else {
            s
        };
        let s = if self.spec_all(SectionFlags::strings()) {
            s.push("Strings")
        } else {
            s
        };
        let s = if self.spec_all(SectionFlags::info_link()) {
            s.push("InfoLink")
        } else {
            s
        };
        let s = if self.spec_all(SectionFlags::link_order()) {
            s.push("LinkOrder")
        } else {
            s
        };
        let s = if self.spec_all(SectionFlags::os_nonconforming()) {
            s.push("OsNonconforming")
        } else {
            s
        };
        let s = if self.spec_all(SectionFlags::group()) {
            s.push("Group")
        } else {
            s
        };
        let s = if self.spec_all(SectionFlags::tls()) {
            s.push("Tls")
        } else {
            s
        };
        let s = if self.spec_all(SectionFlags::compressed()) {
            s.push("Compressed")
        } else {
            s
        };
        s
    }

    /// Returns true if any of the bits are set.
    #[verifier::when_used_as_spec(spec_any)]
    pub fn any(self, bits: Self) -> (b: bool)
        ensures
            b == self.spec_any(bits),
    {
        self.0 & bits.0 != 0
    }

    /// Returns true if all of the bits are set.
    #[verifier::when_used_as_spec(spec_all)]
    pub fn all(self, bits: Self) -> (b: bool)
        ensures
            b == self.spec_all(bits),
    {
        self.0 & bits.0 == bits.0
    }

    /// The set bits that are not declared; empty for every validated value.
    #[verifier::when_used_as_spec(spec_residual)]
    pub fn residual(self) -> (r: Self)
        ensures
            r == self.spec_residual(),
            r == Self::none() <==> self.is_declared(),
    {
        SectionFlags(self.0 & !SectionFlags::mask().0)
    }

    /// The names of the declared bits that are set, in the order of declaration.
    pub fn names(self) -> (v: Vec<&'static str>)
        ensures
            v@ == self.spec_names(),
    {
        let mut v: Vec<&'static str> = Vec::new();
        if self.all(SectionFlags::write()) {
            v.push("Write");
        }
        if self.all(SectionFlags::allocated()) {
            v.push("Alloc");
        }
        if self.all(SectionFlags::execute()) {
            v.push("Exec");
        }
        if self.all(SectionFlags::merge()) {
            v.push("Merge");
        }
        if self.all(SectionFlags::strings()) {
            v.push("Strings");
        }
        if self.all(SectionFlags::info_link()) {
            v.push("InfoLink");
        }
        if self.all(SectionFlags::link_order()) {
            v.push("LinkOrder");
        }
        if self.all(SectionFlags::os_nonconforming()) {
            v.push("OsNonconforming");
        }
        if self.all(SectionFlags::group()) {
            v.push("Group");
        }
        if self.all(SectionFlags::tls()) {
            v.push("Tls");
        }
        if self.all(SectionFlags::compressed()) {
            v.push("Compressed");
        }
        v
    }

    /// The mask is the union of the declared bits.
    pub proof fn lemma_mask_is_union()
        ensures
            SectionFlags::mask().0 == SectionFlags::write().0
                | SectionFlags::allocated().0
                | SectionFlags::execute().0
                | SectionFlags::merge().0
                | SectionFlags::strings().0
                | SectionFlags::info_link().0
                | SectionFlags::link_order().0
                | SectionFlags::os_nonconforming().0
                | SectionFlags::group().0
                | SectionFlags::tls().0
                | SectionFlags::compressed().0,
    {
        assert(0xFF7u32 == 0x1u32
            | 0x2u32
            | 0x4u32
            | 0x10u32
            | 0x20u32
            | 0x40u32
            | 0x80u32
            | 0x100u32
            | 0x200u32
            | 0x400u32
            | 0x800u32) by (bit_vector);
    }

    /// A raw value made of declared bits alone converts to a value that
    /// converts back to the same raw value.
    pub proof fn lemma_round_trip(raw: u32)
        requires
            raw & !SectionFlags::mask().0 == 0,
        ensures
            <SectionFlags as TryFromSpec<u32>>::try_from_spec(raw) == Ok::<SectionFlags, Error>(
                SectionFlags(raw),
            ),
            <u32 as FromSpec<SectionFlags>>::from_spec(SectionFlags(raw)) == raw,
    {
    }

    /// With any one bit set that is not declared, a raw value is refused,
    /// and the error holds all of it.
    pub proof fn lemma_undeclared_bit_is_refused(raw: u32, bit: u32)
        requires
            bit < 32,
            SectionFlags::mask().0 & (1u32 << bit) == 0,
        ensures
            ({
                let spoilt = raw | (1u32 << bit);
                let refused = Error::UnsupportedSectionFlags(SectionFlags(spoilt));
                <SectionFlags as TryFromSpec<u32>>::try_from_spec(spoilt) == Err::<SectionFlags, Error>(
                    refused,
                )
            }),
    {
        assert((raw | (1u32 << bit)) & !0xFF7u32 != 0) by (bit_vector)
            requires
                bit < 32,
                0xFF7u32 & (1u32 << bit) == 0,
        ;
    }
}

impl core::ops::BitAnd for SectionFlags {
    type Output = Self;

    fn bitand(self, rhs: Self) -> (r: Self) {
        SectionFlags(self.0 & rhs.0)
    }
}

impl BitAndSpecImpl for SectionFlags {
    open spec fn obeys_bitand_spec() -> bool {
        true
    }

    open spec fn bitand_req(self, rhs: Self) -> bool {
        true
    }

    open spec fn bitand_spec(self, rhs: Self) -> Self {
        SectionFlags(self.0 & rhs.0)
    }
}

impl core::ops::BitOr for SectionFlags {
    type Output = Self;

    fn bitor(self, rhs: Self) -> (r: Self) {
        SectionFlags(self.0 | rhs.0)
    }
}

impl BitOrSpecImpl for SectionFlags {
    open spec fn obeys_bitor_spec() -> bool {
        true
    }

    open spec fn bitor_req(self, rhs: Self) -> bool {
        true
    }

    open spec fn bitor_spec(self, rhs: Self) -> Self {
        SectionFlags(self.0 | rhs.0)
    }
}

impl core::ops::BitXor for SectionFlags {
    type Output = Self;

    fn bitxor(self, rhs: Self) -> (r: Self) {
        SectionFlags(self.0 ^ rhs.0)
    }
}

impl BitXorSpecImpl for SectionFlags {
    open spec fn obeys_bitxor_spec() -> bool {
        true
    }

    open spec fn bitxor_req(self, rhs: Self) -> bool {
        true
    }

    open spec fn bitxor_spec(self, rhs: Self) -> Self {
        SectionFlags(self.0 ^ rhs.0)
    }
}

impl core::ops::BitAndAssign for SectionFlags {
    fn bitand_assign(&mut self, rhs: Self)
        ensures
            *final(self) == SectionFlags(old(self).0 & rhs.0),
    {
        self.0 = self.0 & rhs.0;
    }
}

impl core::ops::BitOrAssign for SectionFlags {
    fn bitor_assign(&mut self, rhs: Self)
        ensures
            *final(self) == SectionFlags(old(self).0 | rhs.0),
    {
        self.0 = self.0 | rhs.0;
    }
}

impl core::ops::BitXorAssign for SectionFlags {
    fn bitxor_assign(&mut self, rhs: Self)
        ensures
            *final(self) == SectionFlags(old(self).0 ^ rhs.0),
    {
        self.0 = self.0 ^ rhs.0;
    }
}

impl core::ops::Not for SectionFlags {
    type Output = Self;

    fn not(self) -> (r: Self) {
        SectionFlags(!self.0)
    }
}

impl NotSpecImpl for SectionFlags {
    open spec fn obeys_not_spec() -> bool {
        true
    }

    open spec fn not_req(self) -> bool {
        true
    }

    open spec fn not_spec(self) -> Self {
        SectionFlags(!self.0)
    }
}

impl TryFrom<u32> for SectionFlags {
    type Error = Error;

    fn try_from(value: u32) -> (r: Result<Self, Error>) {
        if value & !SectionFlags::mask().0 == 0 {
            Ok(SectionFlags(value))
        } else {
            Err(Error::UnsupportedSectionFlags(SectionFlags(value)))
        }
    }
}

impl TryFromSpecImpl<u32> for SectionFlags {
    open spec fn obeys_try_from_spec() -> bool {
        true
    }

    open spec fn try_from_spec(v: u32) -> Result<Self, Self::Error> {
        if SectionFlags(v).is_declared() {
            Ok(SectionFlags(v))
        } else {
            Err(Error::UnsupportedSectionFlags(SectionFlags(v)))
        }
    }
}

impl From<SectionFlags> for u32 {
    fn from(value: SectionFlags) -> (r: u32) {
        value.0
    }
}

impl FromSpecImpl<SectionFlags> for u32 {
    open spec fn obeys_from_spec() -> bool {
        true
    }

    open spec fn from_spec(v: SectionFlags) -> u32 {
        v.0
    }
}
} // verus!
