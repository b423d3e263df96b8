//! HTTP status codes.

use vstd::prelude::*;

verus! {

/// An HTTP status: the numeric code alone, with no reason phrase.
#[derive(Clone, Copy, Debug, PartialEq, Eq, Structural)]
pub struct Status {
    pub code: u16,
}

impl Status {
    /// The status with the given code.
    pub open spec fn of(code: u16) -> Status {
        Status { code }
    }

    /// The status with the given code. Any code is taken as it is, in or out
    /// of the range of registered codes.
    pub fn new(code: u16) -> (status: Status)
        ensures
            status == Status::of(code),
    {
        Status { code }
    }
}

} // verus!
