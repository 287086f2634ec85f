//! The five outcomes a client can observe.

use vstd::prelude::*;

verus! {

/// What a request ended with.
#[derive(Clone, Copy, Debug, PartialEq, Eq, Structural)]
pub enum IconStatus {
    /// The icon is cached and usable.
    Found,
    /// The client's fingerprint matches the cached content.
    NotModified,
    /// No icon is known for the asset, at least for now.
    NotFound,
    /// A remote fetch is in flight; the client should ask again later.
    Accepted,
    /// A local I/O problem kept the request from being answered.
    InternalError,
}

impl IconStatus {
    /// The HTTP-style code of a status.
    pub open spec fn spec_code(self) -> u16 {
        match self {
            IconStatus::Found => 200,
            IconStatus::NotModified => 304,
            IconStatus::NotFound => 404,
            IconStatus::Accepted => 202,
            IconStatus::InternalError => 500,
        }
    }

    /// The HTTP-style code of a status.
    pub fn code(self) -> (c: u16)
        ensures
            c == self.spec_code(),
    {
        match self {
            IconStatus::Found => 200,
            IconStatus::NotModified => 304,
            IconStatus::NotFound => 404,
            IconStatus::Accepted => 202,
            IconStatus::InternalError => 500,
        }
    }
}

} // verus!
