//! I/O failures, which every reader's and writer's error type can hold.

use vstd::prelude::*;

verus! {

/// `std::io::Error`, carried through as an opaque value: nothing is known of
/// what one holds.
#[verifier::external_type_specification]
#[verifier::external_body]
pub struct ExIoError(std::io::Error);

/// The failure that `std::io::Error::new` builds from the kind `InvalidData` and
/// `message`.
pub uninterp spec fn invalid_data_failure(message: Seq<char>) -> std::io::Error;

/// Calls `std::io::Error::new` with the kind `InvalidData` and `message` as the
/// payload. The result is a function of the message alone; nothing else is
/// claimed of it.
#[verifier::external_body]
pub(crate) fn invalid_data(message: &str) -> (failure: std::io::Error)
    ensures
        failure == invalid_data_failure(message@),
{
    std::io::Error::new(std::io::ErrorKind::InvalidData, message)
}

} // verus!
