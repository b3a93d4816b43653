//! The response statuses the service emits.

use vstd::prelude::*;

verus! {

/// The subset of HTTP statuses that the request handlers produce.
#[derive(Clone, Copy, PartialEq, Eq, Structural, Debug)]
pub enum Status {
    Okay,
    Created,
    NotFound,
    InternalServerError,
}

impl Status {
    /// The numeric code of this status.
    pub open spec fn code_spec(&self) -> u16 {
        match self {
            Status::Okay => 200,
            Status::Created => 201,
            Status::NotFound => 404,
            Status::InternalServerError => 500,
        }
    }

    /// The numeric code of this status.
    pub fn code(&self) -> (c: u16)
        ensures
            c == self.code_spec(),
    {
        match self {
            Status::Okay => 200,
            Status::Created => 201,
            Status::NotFound => 404,
            Status::InternalServerError => 500,
        }
    }
}

} // verus!
