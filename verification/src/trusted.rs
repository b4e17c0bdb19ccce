//! What this crate takes on trust from code that Verus does not read.

use vstd::prelude::*;
use vstd::utf8::{decode_utf8, valid_utf8};

verus! {

/// `memchr::memchr` returns the index of the first byte of `haystack` that
/// equals `needle`, or nothing where no byte does.
pub assume_specification[ memchr::memchr ](needle: u8, haystack: &[u8]) -> (r: Option<usize>)
    ensures
        match r {
            Some(i) => {
                &&& i < haystack@.len()
                &&& haystack@[i as int] == needle
                &&& forall|j: int| 0 <= j < i ==> haystack@[j] != needle
            },
            None => forall|j: int| 0 <= j < haystack@.len() ==> haystack@[j] != needle,
        },
;

/// The error of `std::str::from_utf8`. Nothing is known of what it holds.
#[verifier::external_type_specification]
#[verifier::external_body]
pub struct ExUtf8Error(std::str::Utf8Error);

/// The error with which `std::str::from_utf8` refuses `bytes`.
pub uninterp spec fn utf8_fault(bytes: Seq<u8>) -> std::str::Utf8Error;

/// `std::str::from_utf8` succeeds on exactly the byte strings that are valid
/// UTF-8, and the string it then returns is made of those bytes. What it
/// fails with depends on the bytes alone.
pub assume_specification[ std::str::from_utf8 ](v: &[u8]) -> (r: Result<
    &str,
    std::str::Utf8Error,
>)
    ensures
        r is Ok <==> valid_utf8(v@),
        r matches Ok(s) ==> s@ == decode_utf8(v@),
        r matches Err(e) ==> e == utf8_fault(v@),
;

/// The address of the first byte of `bytes`, from `<[u8]>::as_ptr`. Two equal
/// byte strings may lie anywhere, so nothing is claimed of the number.
#[verifier::external_body]
pub(crate) fn address_of(bytes: &[u8]) -> usize {
    bytes.as_ptr() as usize
}

} // verus!
