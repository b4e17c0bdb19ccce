//! What holds of the decoder as a whole.

use crate::elf::{Elf, ElfView};
use crate::error::Error;
use crate::header::Header;
use crate::layout::is_aligned;
use crate::program::{Program, ProgramHeader, ProgramView, PROGRAM_HEADER_SIZE};
use crate::section::{Section, SectionHeader, SectionView, SECTION_HEADER_SIZE};
use crate::table::{TableIter, TableIterView};
use crate::units::Offset;
use vstd::prelude::*;

verus! {

/// A walk over the programs of an image yields as many results as the header
/// counts programs, and its result at each index is what looking that
/// program up by its index gives. So with the sections.
pub proof fn lemma_walk_matches_lookup<'a>(elf: ElfView)
    ensures
        Elf::<'a>::spec_programs(elf) matches Ok(walk) ==> {
            &&& TableIter::<Program<'a>>::remaining(walk).len() == elf.header.ph_count
            &&& forall|index: u16|
                index < elf.header.ph_count ==> #[trigger] TableIter::<Program<'a>>::remaining(
                    walk,
                )[index as int] == Elf::<'a>::spec_program(elf, index)
        },
        Elf::<'a>::spec_sections(elf) matches Ok(walk) ==> {
            &&& TableIter::<Section<'a>>::remaining(walk).len() == elf.header.sh_count
            &&& forall|index: u16|
                index < elf.header.sh_count ==> #[trigger] TableIter::<Section<'a>>::remaining(
                    walk,
                )[index as int] == Elf::<'a>::spec_section(elf, index)
        },
{
}

/// Bytes that do not lie on a four-byte boundary are refused as unaligned,
/// whatever they hold, by every constructor that asks where they lie. The
/// constructors of the two records look at the length first.
pub proof fn lemma_unaligned_is_refused<'a>(
    address: usize,
    elf: Seq<u8>,
    offset: Offset,
    count: u16,
    size: u16,
)
    requires
        !is_aligned(address as int),
    ensures
        Header::parse_at(address, elf) == Err::<Header, Error>(Error::Unaligned),
        Elf::<'a>::spec_new(address, elf) == Err::<ElfView, Error>(Error::Unaligned),
        TableIter::<Program<'a>>::start(address, elf, offset, count, size) == Err::<
            TableIterView,
            Error,
        >(Error::Unaligned),
        TableIter::<Section<'a>>::start(address, elf, offset, count, size) == Err::<
            TableIterView,
            Error,
        >(Error::Unaligned),
        elf.len() >= PROGRAM_HEADER_SIZE ==> ProgramHeader::parse(is_aligned(address as int), elf)
            == Err::<ProgramHeader, Error>(Error::Unaligned),
        elf.len() >= SECTION_HEADER_SIZE ==> SectionHeader::parse(is_aligned(address as int), elf)
            == Err::<SectionHeader, Error>(Error::Unaligned),
{
}

/// A table that runs past the end of the image is no error until a record
/// is reached that the image does not hold in full: starting a walk asks for
/// alignment alone, and such a record, where its offset is an index of this
/// machine, comes as the end of the buffer, by index and in a walk.
pub proof fn lemma_table_past_end_fails_late<'a>(elf: ElfView, index: u16)
    requires
        is_aligned(elf.address as int),
    ensures
        is_aligned(elf.header.ph_entry_size as int) ==> Elf::<'a>::spec_programs(elf) is Ok,
        is_aligned(elf.header.sh_entry_size as int) ==> Elf::<'a>::spec_sections(elf) is Ok,
        ({
            let at = elf.header.ph_offset.0 + elf.header.ph_entry_size * index;
            let past_end = Err::<ProgramView, Error>(Error::UnexpectedEoF);
            index < elf.header.ph_count && at <= usize::MAX && at + PROGRAM_HEADER_SIZE
                > elf.data.len() ==> {
                &&& Elf::<'a>::spec_program(elf, index) == past_end
                &&& Elf::<'a>::spec_programs(elf) matches Ok(walk) ==> TableIter::<
                    Program<'a>,
                >::entry(walk, index) == past_end
            }
        }),
        ({
            let at = elf.header.sh_offset.0 + elf.header.sh_entry_size * index;
            let past_end = Err::<SectionView, Error>(Error::UnexpectedEoF);
            index < elf.header.sh_count && at <= usize::MAX && at + SECTION_HEADER_SIZE
                > elf.data.len() ==> {
                &&& Elf::<'a>::spec_section(elf, index) == past_end
                &&& Elf::<'a>::spec_sections(elf) matches Ok(walk) ==> TableIter::<
                    Section<'a>,
                >::entry(walk, index) == past_end
            }
        }),
{
}

} // verus!
