//! String tables: pools of NUL-terminated strings, found by byte offset.

use crate::error::Error;
use crate::flags::SectionFlags;
use crate::kinds::SectionType;
use crate::layout::outcome;
use crate::section::{Section, SectionView};
use crate::trusted::{address_of, utf8_fault};
use vstd::prelude::*;
use vstd::slice::slice_subrange;
use vstd::utf8::{decode_utf8, valid_utf8};

verus! {

/// Whether the first NUL of `table` at or after `from` lies at `end`.
pub open spec fn terminated_at(table: Seq<u8>, from: int, end: int) -> bool {
    &&& from <= end < table.len()
    &&& table[end] == 0
    &&& forall|j: int| from <= j < end ==> table[j] != 0
}

/// Whether `table` holds a NUL at or after `from`.
pub open spec fn has_terminator(table: Seq<u8>, from: int) -> bool {
    exists|end: int| terminated_at(table, from, end)
}

/// The bytes of the string that starts at `index` in `table`, without its
/// terminator. An index that equals the table's length is in range, and
/// finds no terminator.
pub open spec fn bytes_at(table: Seq<u8>, index: u32) -> Result<Seq<u8>, Error> {
    if index > table.len() {
        Err(Error::IndexOutOfRange)
    } else if !has_terminator(table, index as int) {
        Err(Error::UnterminatedString)
    } else {
        Ok(table.subrange(index as int, choose|end: int| terminated_at(table, index as int, end)))
    }
}

/// The string that starts at `index` in `table`, decoded as UTF-8.
pub open spec fn str_at(table: Seq<u8>, index: u32) -> Result<Seq<char>, Error> {
    match bytes_at(table, index) {
        Err(e) => Err(e),
        Ok(bytes) => if valid_utf8(bytes) {
            Ok(decode_utf8(bytes))
        } else {
            Err(Error::NotUtf8(utf8_fault(bytes)))
        },
    }
}

/// Only one place can hold the first NUL after `from`.
pub proof fn lemma_terminator_unique(table: Seq<u8>, from: int, a: int, b: int)
    requires
        terminated_at(table, from, a),
        terminated_at(table, from, b),
    ensures
        a == b,
{
    if a < b {
        assert(table[a] != 0);
    } else if b < a {
        assert(table[b] != 0);
    }
}

/// In a table whose first byte is a NUL, the string at offset 0 is empty.
pub proof fn lemma_empty_string_at_start(table: Seq<u8>)
    requires
        table.len() > 0,
        table[0] == 0,
    ensures
        bytes_at(table, 0) == Ok::<Seq<u8>, Error>(Seq::empty()),
        str_at(table, 0) == Ok::<Seq<char>, Error>(Seq::empty()),
{
    assert(terminated_at(table, 0, 0));
    let chosen = choose|end: int| terminated_at(table, 0, end);
    lemma_terminator_unique(table, 0, 0, chosen);
    assert(table.subrange(0, 0) =~= Seq::<u8>::empty());
    assert(valid_utf8(Seq::<u8>::empty()));
    assert(decode_utf8(Seq::<u8>::empty()) =~= Seq::<char>::empty());
}

/// At an offset inside the table, or at its end, behind which no NUL comes,
/// a string is unterminated.
pub proof fn lemma_unterminated(table: Seq<u8>, index: u32)
    requires
        index <= table.len(),
        forall|j: int| index <= j < table.len() ==> table[j] != 0,
    ensures
        bytes_at(table, index) == Err::<Seq<u8>, Error>(Error::UnterminatedString),
        str_at(table, index) == Err::<Seq<char>, Error>(Error::UnterminatedString),
{
}

/// The bytes of a section that holds strings.
#[derive(Debug, Clone, Copy)]
pub struct StringTable<'a>(&'a [u8]);

impl<'a> View for StringTable<'a> {
    type V = Seq<u8>;

    closed spec fn view(&self) -> Seq<u8> {
        self.0@
    }
}

impl<'a> StringTable<'a> {
    /// What coercing a section gives: its bytes, if it is of type string
    /// table and has the strings flag; the type is looked at first.
    pub open spec fn spec_new(section: SectionView) -> Result<Seq<u8>, Error> {
        if section.header.ty != SectionType::string_table() {
            Err(
                Error::WrongSectionType {
                    expected: SectionType::string_table(),
                    actual: section.header.ty,
                },
            )
        } else if !section.header.flags.spec_all(SectionFlags::strings()) {
            Err(
                Error::WrongSectionFlags {
                    expected: SectionFlags::strings(),
                    actual: section.header.flags,
                },
            )
        } else {
            Ok(section.data)
        }
    }

    /// Coerce a Section into a string table.
    ///
    /// The section must be of type `SHT_STRTAB` and have the `SHF_STRINGS` flag.
    pub fn new(section: Section<'a>) -> (r: Result<Self, Error>)
        ensures
            outcome(r) == Self::spec_new(section@),
    {
        match section.check_type(SectionType::string_table()) {
            Err(e) => Err(e),
            Ok(()) => match section.check_flag(SectionFlags::strings()) {
                Err(e) => Err(e),
                Ok(()) => Ok(StringTable(section.data)),
            },
        }
    }

    /// Get the byte slice of a string in the string table, not including the null terminator.
    pub fn get_bytes(self, index: u32) -> (r: Result<&'a [u8], Error>)
        ensures
            outcome(r) == bytes_at(self@, index),
    {
        let table = self.0;
        let from: usize = match usize::try_from(index) {
            Err(_) => { return Err(Error::IndexOutOfRange); },
            Ok(from) => from,
        };
        if from > table.len() {
            return Err(Error::IndexOutOfRange);
        }
        let rest = slice_subrange(table, from, table.len());
        match memchr::memchr(0, rest) {
            None => {
                proof {
                    assert forall|end: int| !terminated_at(table@, from as int, end) by {
                        if from <= end < table@.len() {
                            assert(rest@[end - from] == table@[end]);
                        }
                    }
                }
                Err(Error::UnterminatedString)
            },
            Some(len) => {
                proof {
                    let end: int = from + len;
                    assert(rest@[len as int] == table@[end]);
                    assert forall|j: int| from <= j < end implies table@[j] != 0 by {
                        assert(rest@[j - from] == table@[j]);
                    }
                    assert(terminated_at(table@, from as int, end));
                    let chosen = choose|e: int| terminated_at(table@, from as int, e);
                    lemma_terminator_unique(table@, from as int, end, chosen);
                    assert(rest@.subrange(0, len as int) =~= table@.subrange(from as int, end));
                }
                Ok(slice_subrange(rest, 0, len))
            },
        }
    }

    /// Get the string that starts at `index`, which must be UTF-8.
    pub fn get_str(self, index: u32) -> (r: Result<&'a str, Error>)
        ensures
            outcome(r) == str_at(self@, index),
    {
        match self.get_bytes(index) {
            Err(e) => Err(e),
            Ok(bytes) => match std::str::from_utf8(bytes) {
                Ok(s) => Ok(s),
                Err(e) => Err(Error::NotUtf8(e)),
            },
        }
    }

    /// Returns the address of the start of the string table.
    ///
    /// The string table is not confirmed to be null terminated.
    ///
    /// Where a table lies is no part of what it holds: two tables of the
    /// same bytes may lie anywhere. So nothing is stated of the number.
    pub fn get_ptr(self) -> usize {
        address_of(self.0)
    }

    /// Returns the length of the string table in bytes.
    pub fn len(self) -> (n: usize)
        ensures
            n == self@.len(),
    {
        self.0.len()
    }

    /// Returns true if the string table has a length of 0.
    pub fn is_empty(self) -> (b: bool)
        ensures
            b == (self@.len() == 0),
    {
        self.0.len() == 0
    }
}

} // verus!
