use vstd::prelude::*;

verus! {

/// HTTP-style outcome of a store operation.
#[derive(Clone, Copy, Debug, PartialEq, Eq, Structural)]
pub enum Status {
    /// The operation fully succeeded.
    Okay,
    /// The request was malformed: the hash token is too short.
    BadRequest,
    /// The token resolves to no stored object.
    NotFound,
    /// A filesystem failure: the operation did not complete.
    InternalError,
}

impl Status {
    /// The numeric HTTP status code this outcome is reported as.
    pub open spec fn spec_code(&self) -> u16 {
        match self {
            Status::Okay => 200,
            Status::BadRequest => 400,
            Status::NotFound => 404,
            Status::InternalError => 500,
        }
    }

    /// Returns the HTTP status code for this outcome.
    pub fn code(&self) -> (c: u16)
        ensures
            c == self.spec_code(),
    {
        match self {
            Status::Okay => 200,
            Status::BadRequest => 400,
            Status::NotFound => 404,
            Status::InternalError => 500,
        }
    }
}

} // verus!
