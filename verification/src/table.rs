//! Tables of records that lie a fixed stride apart.

use crate::error::Error;
use crate::layout::{advance, find_record, is_aligned, locate, outcome};
use crate::trusted::address_of;
use crate::units::Offset;
use core::marker::PhantomData;
use vstd::prelude::*;
use vstd::slice::slice_subrange;

verus! {

/// A kind of record that can be built from an image and from the bytes of
/// the image at which the record starts.
pub trait TableEntry<'a>: Sized + View {
    /// The fixed-size part of the record.
    type Header;

    /// What building a record gives, from the image `elf` and the bytes
    /// `header` that start with the record, where `aligned` says whether
    /// `header` starts on a four-byte boundary.
    spec fn entry(aligned: bool, elf: Seq<u8>, header: Seq<u8>) -> Result<Self::V, Error>;

    /// Builds a record from `header`, whose first byte lies at `address`.
    fn new_at(address: usize, elf: &'a [u8], header: &'a [u8]) -> (r: Result<Self, Error>)
        ensures
            outcome(r) == Self::entry(is_aligned(address as int), elf@, header@),
    ;

    /// Like [`TableEntry::new_at`], at the address where `header` lies.
    fn new(elf: &'a [u8], header: &'a [u8]) -> (r: Result<Self, Error>)
        ensures
            exists|aligned: bool| outcome(r) == Self::entry(aligned, elf@, header@),
    ;
}

/// What looking up the record `index` gives in a table of the image `elf`,
/// which lies at `address`: the table starts at `offset` and its records lie
/// `size` bytes apart. The index is not held against any count.
pub open spec fn table_entry<'a, T: TableEntry<'a>>(
    address: usize,
    elf: Seq<u8>,
    offset: Offset,
    size: u16,
    index: u16,
) -> Result<T::V, Error> {
    match locate(elf.len(), offset, size, index) {
        Err(e) => Err(e),
        Ok(at) => T::entry(
            is_aligned(address + at),
            elf,
            elf.subrange(at as int, elf.len() as int),
        ),
    }
}

/// Looks up the record `index` of a table; see [`table_entry`].
pub(crate) fn lookup<'a, T: TableEntry<'a>>(
    address: usize,
    elf: &'a [u8],
    offset: Offset,
    size: u16,
    index: u16,
) -> (r: Result<T, Error>)
    ensures
        outcome(r) == table_entry::<T>(address, elf@, offset, size, index),
{
    match find_record(elf.len(), offset, size, index) {
        Err(e) => Err(e),
        Ok(at) => T::new_at(advance(address, at), elf, slice_subrange(elf, at, elf.len())),
    }
}

/// A walk over the records of a table, from the first to the last.
pub struct TableIter<'a, T: 'a + TableEntry<'a>> {
    elf: &'a [u8],
    address: usize,
    offset: Offset,
    count: u16,
    size: u16,
    index: u16,
    marker: PhantomData<T>,
}

/// What a [`TableIter`] is made of.
pub struct TableIterView {
    /// The image.
    pub elf: Seq<u8>,
    /// Where the image lies.
    pub address: usize,
    /// Where in the image the table starts.
    pub offset: Offset,
    /// How many records the table has.
    pub count: u16,
    /// How many bytes lie between the starts of two records.
    pub size: u16,
    /// The index of the record that comes next.
    pub index: u16,
}

impl<'a, T: 'a + TableEntry<'a>> View for TableIter<'a, T> {
    type V = TableIterView;

    closed spec fn view(&self) -> TableIterView {
        TableIterView {
            elf: self.elf@,
            address: self.address,
            offset: self.offset,
            count: self.count,
            size: self.size,
            index: self.index,
        }
    }
}

impl<'a, T: 'a + TableEntry<'a>> TableIter<'a, T> {
    /// What starting a walk gives: the image and the stride must both be on
    /// a four-byte boundary. Neither the offset nor the count is looked at.
    pub open spec fn start(
        address: usize,
        elf: Seq<u8>,
        offset: Offset,
        count: u16,
        size: u16,
    ) -> Result<TableIterView, Error> {
        if !is_aligned(address as int) || !is_aligned(size as int) {
            Err(Error::Unaligned)
        } else {
            Ok(TableIterView { elf, address, offset, count, size, index: 0 })
        }
    }

    /// What the record `index` of the table is; see [`table_entry`].
    pub open spec fn entry(table: TableIterView, index: u16) -> Result<T::V, Error> {
        table_entry::<T>(table.address, table.elf, table.offset, table.size, index)
    }

    /// What is left of a walk: the records from the next one to the last, in
    /// the order of the table.
    pub open spec fn remaining(table: TableIterView) -> Seq<Result<T::V, Error>> {
        Seq::new(
            if table.index <= table.count {
                (table.count - table.index) as nat
            } else {
                0
            },
            |i: int| Self::entry(table, (table.index + i) as u16),
        )
    }

    /// Starts a walk over the table of the image `elf`, which lies at `address`.
    pub fn new_at(
        address: usize,
        elf: &'a [u8],
        offset: Offset,
        count: u16,
        size: u16,
    ) -> (r: Result<Self, Error>)
        ensures
            outcome(r) == Self::start(address, elf@, offset, count, size),
    {
        if address % 4 != 0 || size % 4 != 0 {
            Err(Error::Unaligned)
        } else {
            Ok(TableIter { elf, address, offset, count, size, index: 0, marker: PhantomData })
        }
    }

    /// Like [`TableIter::new_at`], at the address where `elf` lies.
    pub fn new(elf: &'a [u8], offset: Offset, count: u16, size: u16) -> (r: Result<Self, Error>)
        ensures
            exists|address: usize| outcome(r) == Self::start(address, elf@, offset, count, size),
            !is_aligned(size as int) ==> r is Err && r->Err_0 == Error::Unaligned,
    {
        let address: usize = address_of(elf);
        let r = Self::new_at(address, elf, offset, count, size);
        assert(outcome(r) == Self::start(address, elf@, offset, count, size));
        r
    }

    /// The next record of the table, or nothing once `count` records have
    /// come. A record that cannot be built comes as its error, and the walk
    /// goes on behind it.
    pub fn next(&mut self) -> (r: Option<Result<T, Error>>)
        ensures
            old(self)@.index >= old(self)@.count ==> r is None && final(self)@ == old(self)@,
            old(self)@.index < old(self)@.count ==> (r matches Some(e) && outcome(e) == Self::entry(
                old(self)@,
                old(self)@.index,
            ) && final(self)@ == TableIterView {
                index: (old(self)@.index + 1) as u16,
                ..old(self)@
            }),
    {
        if self.index >= self.count {
            None
        } else {
            let index: u16 = self.index;
            self.index = index + 1;
            Some(lookup::<T>(self.address, self.elf, self.offset, self.size, index))
        }
    }

    /// Walks to the end of the table and returns what came, in order.
    pub fn collect(self) -> (v: Vec<Result<T, Error>>)
        ensures
            v@.len() == Self::remaining(self@).len(),
            forall|i: int|
                0 <= i < v@.len() ==> outcome(#[trigger] v@[i]) == Self::remaining(self@)[i],
    {
        let ghost start = self@;
        let mut walk = self;
        let mut v: Vec<Result<T, Error>> = Vec::new();
        while walk.index < walk.count
            invariant
                walk@ == (TableIterView { index: walk@.index, ..start }),
                start.index <= walk@.index,
                start.index <= start.count ==> walk@.index <= start.count,
                start.index > start.count ==> walk@.index == start.index,
                v@.len() == walk@.index - start.index,
                forall|i: int|
                    0 <= i < v@.len() ==> outcome(#[trigger] v@[i]) == Self::entry(
                        start,
                        (start.index + i) as u16,
                    ),
            decreases walk@.count - walk@.index,
        {
            match walk.next() {
                Some(entry) => { v.push(entry); },
                None => {},
            }
        }
        v
    }
}

} // verus!
