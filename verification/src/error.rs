use vstd::prelude::*;

verus! {

/// A second owner was asked for while the domain's owner was still live.
#[derive(Clone, Copy, Debug, PartialEq, Eq, Structural)]
pub struct DuplicateDomainError {
    marker: u64,
}

impl DuplicateDomainError {
    /// The marker of the domain that already has a live owner.
    pub closed spec fn view(&self) -> u64 {
        self.marker
    }

    pub(crate) fn new(marker: u64) -> (e: DuplicateDomainError)
        ensures
            e@ == marker,
    {
        DuplicateDomainError { marker }
    }

    /// The marker of the domain that already has a live owner.
    pub fn marker(&self) -> (m: u64)
        ensures
            m == self@,
    {
        self.marker
    }
}

/// One cell was named more than once in a request for several exclusive borrows.
#[derive(Clone, Copy, Debug, PartialEq, Eq, Structural)]
pub struct AliasedBorrowError {
    location: usize,
}

impl AliasedBorrowError {
    /// The storage location that was named more than once.
    pub closed spec fn view(&self) -> nat {
        self.location as nat
    }

    pub(crate) fn new(location: usize) -> (e: AliasedBorrowError)
        ensures
            e@ == location,
    {
        AliasedBorrowError { location }
    }

    /// The storage location that was named more than once.
    pub fn location(&self) -> (l: usize)
        ensures
            l == self@,
    {
        self.location
    }
}

} // verus!
