use crate::owner::TCellOwner;
use std::marker::PhantomData;
use vstd::prelude::*;

verus! {

/// A cell of the domain `Q`. Its contents are held by the domain's owner and are reached
/// only through it; the cell itself names the storage location they occupy.
pub struct TCell<const Q: u64, T> {
    location: usize,
    kind: PhantomData<T>,
}

impl<const Q: u64, T> View for TCell<Q, T> {
    type V = nat;

    /// The storage location of the cell's contents.
    closed spec fn view(&self) -> nat {
        self.location as nat
    }
}

impl<const Q: u64, T> TCell<Q, T> {
    /// Makes a cell of `owner`'s domain that holds `value`. It takes the first location
    /// that no cell of the domain occupies; every other cell keeps its contents.
    pub fn new(owner: &mut TCellOwner<Q, T>, value: T) -> (cell: TCell<Q, T>)
        ensures
            cell@ == old(owner)@.len(),
            final(owner)@ == old(owner)@.push(value),
    {
        let location: usize = owner.store(value);
        TCell { location, kind: PhantomData }
    }

    /// The storage location of the cell's contents.
    pub fn location(&self) -> (location: usize)
        ensures
            location == self@,
    {
        self.location
    }
}

} // verus!
