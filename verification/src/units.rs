//! The two 32-bit quantities an image locates things by.

use crate::error::Error;
use vstd::prelude::*;

verus! {

/// A virtual address: where something lies in the memory of the running program.
#[derive(Debug, Clone, Copy, PartialEq, Eq, Structural)]
pub struct Address(pub u32);

impl Address {
    /// The address as an index of this machine, where it fits one.
    pub open spec fn spec_as_usize(self) -> Result<usize, Error> {
        if self.0 <= usize::MAX {
            Ok(self.0 as usize)
        } else {
            Err(Error::IntegerOverflow)
        }
    }

    /// Narrows the address to an index of this machine.
    pub fn as_usize(self) -> (r: Result<usize, Error>)
        ensures
            r == self.spec_as_usize(),
    {
        match usize::try_from(self.0) {
            Ok(index) => Ok(index),
            Err(_) => Err(Error::IntegerOverflow),
        }
    }
}

/// A file offset: where something lies in the image, counted in bytes from its start.
#[derive(Debug, Clone, Copy, PartialEq, Eq, Structural)]
pub struct Offset(pub u32);

impl Offset {
    /// The offset as an index of this machine, where it fits one.
    pub open spec fn spec_as_usize(self) -> Result<usize, Error> {
        if self.0 <= usize::MAX {
            Ok(self.0 as usize)
        } else {
            Err(Error::IntegerOverflow)
        }
    }

    /// Narrows the offset to an index of this machine.
    pub fn as_usize(self) -> (r: Result<usize, Error>)
        ensures
            r == self.spec_as_usize(),
    {
        match usize::try_from(self.0) {
            Ok(index) => Ok(index),
            Err(_) => Err(Error::IntegerOverflow),
        }
    }
}

} // verus!
