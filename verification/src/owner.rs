use crate::cell::TCell;
use crate::disjoint::pair_mut;
use crate::disjoint::triple_mut;
use crate::error::AliasedBorrowError;
use crate::error::DuplicateDomainError;
use crate::registry::DomainRegistry;
use vstd::prelude::*;

verus! {

/// The one live owner of the domain `Q`: the only way to the contents of its cells.
///
/// A shared borrow of the owner reads any number of cells at once; an exclusive borrow
/// writes one cell, or several that differ. The owner's life ends with
/// [`release`](TCellOwner::release); until then its registry makes no other owner for
/// the domain.
pub struct TCellOwner<const Q: u64, T> {
    cells: Vec<T>,
}

impl<const Q: u64, T> View for TCellOwner<Q, T> {
    type V = Seq<T>;

    /// The contents of the domain's cells, by storage location.
    closed spec fn view(&self) -> Seq<T> {
        self.cells@
    }
}

/// The location that occurs more than once among three, if one does.
pub open spec fn repeated(first: nat, second: nat, third: nat) -> Option<nat> {
    if first == second || first == third {
        Some(first)
    } else if second == third {
        Some(second)
    } else {
        None
    }
}

impl<const Q: u64, T> TCellOwner<Q, T> {
    /// Whether `cell` is one of the cells whose contents this owner holds.
    pub open spec fn spec_governs(&self, cell: &TCell<Q, T>) -> bool {
        cell@ < self@.len()
    }

    /// The contents of `cell`.
    pub open spec fn value(&self, cell: &TCell<Q, T>) -> T
        recommends
            self.governs(cell),
    {
        self@[cell@ as int]
    }

    /// Makes the owner of the domain `Q`, with the cells that the domain had when its
    /// last owner was released. Fails, and leaves the registry as it was, while another
    /// owner of the domain is live.
    pub fn new(registry: &mut DomainRegistry<T>) -> (made: Result<
        TCellOwner<Q, T>,
        DuplicateDomainError,
    >)
        ensures
            made is Ok <==> old(registry)@.vacant(Q),
            made matches Ok(owner) ==> owner@ == old(registry)@.cells_of(Q),
            made matches Ok(owner) ==> final(registry)@ == old(registry)@.claim(Q),
            made matches Err(error) ==> error@ == Q,
            made matches Err(error) ==> final(registry)@ == old(registry)@,
    {
        if registry.register(Q) {
            Ok(TCellOwner { cells: registry.withdraw(Q) })
        } else {
            proof {
                assert(registry@.live =~= old(registry)@.live);
            }
            Err(DuplicateDomainError::new(Q))
        }
    }

    /// Ends the owner's life: the registry keeps the cells for the domain's next owner,
    /// and the domain is vacant again. The registry is to be the one that made the owner.
    pub fn release(self, registry: &mut DomainRegistry<T>)
        ensures
            final(registry)@ == old(registry)@.surrender(Q, self@),
    {
        registry.deposit(Q, self.cells);
        registry.unregister(Q);
    }

    /// Whether `cell` is one of the cells whose contents this owner holds.
    #[verifier::when_used_as_spec(spec_governs)]
    pub fn governs(&self, cell: &TCell<Q, T>) -> (held: bool)
        ensures
            held == self.spec_governs(cell),
    {
        cell.location() < self.cells.len()
    }

    /// Takes `value` into the first free location, and says which it is.
    pub(crate) fn store(&mut self, value: T) -> (location: usize)
        ensures
            location == old(self)@.len(),
            final(self)@ == old(self)@.push(value),
    {
        let location: usize = self.cells.len();
        self.cells.push(value);
        location
    }

    /// Borrows the contents of `cell`. Any number of cells can be borrowed this way at
    /// the same time.
    pub fn get<'a>(&'a self, cell: &'a TCell<Q, T>) -> (contents: &'a T)
        requires
            self.governs(cell),
        ensures
            *contents == self.value(cell),
    {
        &self.cells[cell.location()]
    }

    /// Borrows the contents of `cell` for writing. What the borrow holds when it ends is
    /// what the cell holds from then on; no other cell changes.
    pub fn get_mut<'a>(&'a mut self, cell: &'a TCell<Q, T>) -> (contents: &'a mut T)
        requires
            old(self).governs(cell),
        ensures
            *contents == old(self).value(cell),
            final(self)@ == old(self)@.update(cell@ as int, *final(contents)),
    {
        &mut self.cells[cell.location()]
    }

    /// Borrows the contents of two cells for writing, unless they are the same cell.
    pub fn get_mut2<'a>(&'a mut self, first: &'a TCell<Q, T>, second: &'a TCell<Q, T>) -> (pair:
        Result<(&'a mut T, &'a mut T), AliasedBorrowError>)
        requires
            old(self).governs(first),
            old(self).governs(second),
        ensures
            pair is Err <==> first@ == second@,
            pair matches Err(error) ==> error@ == first@,
            pair matches Err(error) ==> final(self)@ == old(self)@,
            pair matches Ok(contents) ==> *contents.0 == old(self).value(first),
            pair matches Ok(contents) ==> *contents.1 == old(self).value(second),
            pair matches Ok(contents) ==> final(self)@ == old(self)@.update(
                first@ as int,
                *final(contents.0),
            ).update(second@ as int, *final(contents.1)),
    {
        let i: usize = first.location();
        let j: usize = second.location();
        if i == j {
            Err(AliasedBorrowError::new(i))
        } else {
            Ok(pair_mut(self.cells.as_mut_slice(), i, j))
        }
    }

    /// Borrows the contents of three cells for writing, unless two of them are the same
    /// cell.
    pub fn get_mut3<'a>(
        &'a mut self,
        first: &'a TCell<Q, T>,
        second: &'a TCell<Q, T>,
        third: &'a TCell<Q, T>,
    ) -> (triple: Result<(&'a mut T, &'a mut T, &'a mut T), AliasedBorrowError>)
        requires
            old(self).governs(first),
            old(self).governs(second),
            old(self).governs(third),
        ensures
            triple is Err <==> first@ == second@ || second@ == third@ || third@ == first@,
            triple matches Err(error) ==> repeated(first@, second@, third@) == Some(error@),
            triple matches Err(error) ==> final(self)@ == old(self)@,
            triple matches Ok(contents) ==> *contents.0 == old(self).value(first),
            triple matches Ok(contents) ==> *contents.1 == old(self).value(second),
            triple matches Ok(contents) ==> *contents.2 == old(self).value(third),
            triple matches Ok(contents) ==> final(self)@ == old(self)@.update(
                first@ as int,
                *final(contents.0),
            ).update(second@ as int, *final(contents.1)).update(
                third@ as int,
                *final(contents.2),
            ),
    {
        let i: usize = first.location();
        let j: usize = second.location();
        let k: usize = third.location();
        if i == j || i == k {
            Err(AliasedBorrowError::new(i))
        } else if j == k {
            Err(AliasedBorrowError::new(j))
        } else {
            Ok(triple_mut(self.cells.as_mut_slice(), i, j, k))
        }
    }
}

} // verus!
