use crate::cell::TCell;
use crate::owner::repeated;
use crate::owner::TCellOwner;
use crate::registry::Domains;
use vstd::prelude::*;

verus! {

/// A domain has one owner at a time: once an owner is made the domain is no longer
/// vacant, so no second one can be made; once that owner is released it is vacant again,
/// so the next one can.
pub proof fn lemma_one_owner_at_a_time<T>(domains: Domains<T>, marker: u64, cells: Seq<T>)
    ensures
        !domains.claim(marker).vacant(marker),
        domains.claim(marker).surrender(marker, cells).vacant(marker),
{
}

/// Domains do not interfere: making or releasing the owner of one domain changes neither
/// whether another domain is vacant nor the cells stored for it. So the owners of two
/// vacant domains can both be made, in either order and with the same outcome.
pub proof fn lemma_domains_are_independent<T>(
    domains: Domains<T>,
    marker: u64,
    other: u64,
    cells: Seq<T>,
)
    requires
        marker != other,
    ensures
        domains.claim(marker).vacant(other) == domains.vacant(other),
        domains.claim(marker).cells_of(other) == domains.cells_of(other),
        domains.surrender(marker, cells).vacant(other) == domains.vacant(other),
        domains.surrender(marker, cells).cells_of(other) == domains.cells_of(other),
        domains.vacant(marker) && domains.vacant(other) ==> domains.claim(marker).vacant(other),
        domains.claim(marker).claim(other) == domains.claim(other).claim(marker),
{
    assert(domains.claim(marker).claim(other).live =~= domains.claim(other).claim(marker).live);
    assert(domains.claim(marker).claim(other).stored =~= domains.claim(other).claim(
        marker,
    ).stored);
}

/// A domain's cells outlive its owner: the cells that an owner is released with are the
/// cells that the domain's next owner is made with, and while an owner holds them the
/// registry stores none.
pub proof fn lemma_cells_outlive_owner<T>(domains: Domains<T>, marker: u64, cells: Seq<T>)
    ensures
        domains.surrender(marker, cells).cells_of(marker) == cells,
        domains.claim(marker).cells_of(marker) == Seq::<T>::empty(),
{
}

/// Taking a marker out of the live set twice is the same as taking it out once, and
/// taking out one that is not in it changes nothing.
pub proof fn lemma_unregister_is_idempotent<T>(domains: Domains<T>, marker: u64)
    ensures
        domains.unregister(marker).unregister(marker) == domains.unregister(marker),
        domains.vacant(marker) ==> domains.unregister(marker) == domains,
{
    assert(domains.unregister(marker).unregister(marker).live =~= domains.unregister(
        marker,
    ).live);
    if domains.vacant(marker) {
        assert(domains.unregister(marker).live =~= domains.live);
    }
}

/// A read sees the last write: after `value` was written to one cell, that cell holds
/// `value`, every other cell holds what it held before, and the owner governs the same
/// cells.
pub proof fn lemma_read_sees_last_write<const Q: u64, T>(
    before: TCellOwner<Q, T>,
    after: TCellOwner<Q, T>,
    written: TCell<Q, T>,
    value: T,
    read: TCell<Q, T>,
)
    requires
        before.governs(&written),
        before.governs(&read),
        after@ == before@.update(written@ as int, value),
    ensures
        after.governs(&read),
        read@ == written@ ==> after.value(&read) == value,
        read@ != written@ ==> after.value(&read) == before.value(&read),
{
}

/// A written value is observed: when the borrow that `get_mut` gave ends with `value` in
/// it, a later `get` of the same cell gives `value`, and so does what a later `get_mut`
/// of it starts with.
pub proof fn lemma_written_value_is_observed<const Q: u64, T>(
    before: TCellOwner<Q, T>,
    after: TCellOwner<Q, T>,
    cell: TCell<Q, T>,
    value: T,
)
    requires
        before.governs(&cell),
        after@ == before@.update(cell@ as int, value),
    ensures
        after.governs(&cell),
        after.value(&cell) == value,
{
}

/// Writes to different cells do not disturb each other: whichever of two is written
/// first, both cells end up with what was written to them.
pub proof fn lemma_writes_to_different_cells_commute<const Q: u64, T>(
    owner: TCellOwner<Q, T>,
    first: TCell<Q, T>,
    second: TCell<Q, T>,
    one: T,
    two: T,
)
    requires
        owner.governs(&first),
        owner.governs(&second),
        first@ != second@,
    ensures
        owner@.update(first@ as int, one).update(second@ as int, two) == owner@.update(
            second@ as int,
            two,
        ).update(first@ as int, one),
        owner@.update(first@ as int, one).update(second@ as int, two)[first@ as int] == one,
        owner@.update(first@ as int, one).update(second@ as int, two)[second@ as int] == two,
{
}

/// Among three locations one is repeated exactly when two of them are equal, and the
/// one that is then named is a location that occurs at least twice.
pub proof fn lemma_repeated_is_an_aliased_location(first: nat, second: nat, third: nat)
    ensures
        repeated(first, second, third) is Some <==> first == second || second == third || third
            == first,
        repeated(first, second, third) matches Some(location) ==> (location == first && location
            == second) || (location == second && location == third) || (location == third
            && location == first),
{
}

} // verus!
