use std::collections::HashMap;
use std::collections::HashSet;
use vstd::prelude::*;

verus! {

broadcast use vstd::std_specs::hash::group_hash_axioms;

/// What a registry records of every domain: which markers have a live owner, and the
/// values of the cells of the domains that were handed back.
pub struct Domains<T> {
    pub live: Set<u64>,
    pub stored: Map<u64, Seq<T>>,
}

impl<T> Domains<T> {
    /// The record of a registry that has seen no domain yet.
    pub open spec fn empty() -> Domains<T> {
        Domains { live: Set::empty(), stored: Map::empty() }
    }

    /// Whether an owner for `marker` can be made: none is live.
    pub open spec fn vacant(self, marker: u64) -> bool {
        !self.live.contains(marker)
    }

    /// The values that the domain's cells held when its owner was last released, by
    /// storage location; empty while an owner holds them, or if there never was one.
    pub open spec fn cells_of(self, marker: u64) -> Seq<T> {
        if self.stored.contains_key(marker) {
            self.stored[marker]
        } else {
            Seq::empty()
        }
    }

    /// The record with `marker` among the live markers.
    pub open spec fn register(self, marker: u64) -> Domains<T> {
        Domains { live: self.live.insert(marker), stored: self.stored }
    }

    /// The record with `marker` not among the live markers.
    pub open spec fn unregister(self, marker: u64) -> Domains<T> {
        Domains { live: self.live.remove(marker), stored: self.stored }
    }

    /// The record with no cells stored for `marker`.
    pub open spec fn withdraw(self, marker: u64) -> Domains<T> {
        Domains { live: self.live, stored: self.stored.remove(marker) }
    }

    /// The record with `cells` stored for `marker`.
    pub open spec fn deposit(self, marker: u64, cells: Seq<T>) -> Domains<T> {
        Domains { live: self.live, stored: self.stored.insert(marker, cells) }
    }

    /// The record after an owner for `marker` was made: the marker is live, and the
    /// domain's cells are with the owner.
    pub open spec fn claim(self, marker: u64) -> Domains<T> {
        self.register(marker).withdraw(marker)
    }

    /// The record after the owner for `marker` was released while its cells held
    /// `cells`: the marker is not live, and the cells are kept for the next owner.
    pub open spec fn surrender(self, marker: u64, cells: Seq<T>) -> Domains<T> {
        self.deposit(marker, cells).unregister(marker)
    }
}

/// Tracks which domains have a live owner, and keeps the cells of those that have none.
///
/// Owners are made from a registry and are to be released into the same one. From the
/// time it makes an owner until that owner is released into it, a registry makes no other
/// owner for the domain. An owner that is dropped without being released leaves its
/// domain live for good.
pub struct DomainRegistry<T> {
    live: HashSet<u64>,
    stored: HashMap<u64, Vec<T>>,
}

impl<T> View for DomainRegistry<T> {
    type V = Domains<T>;

    closed spec fn view(&self) -> Domains<T> {
        Domains { live: self.live@, stored: self.stored@.map_values(|cells: Vec<T>| cells@) }
    }
}

impl<T> DomainRegistry<T> {
    /// A registry in which no domain has an owner or any cell.
    pub fn new() -> (registry: DomainRegistry<T>)
        ensures
            registry@ == Domains::<T>::empty(),
    {
        let registry = DomainRegistry { live: HashSet::new(), stored: HashMap::new() };
        assert(registry@.stored =~= Map::empty());
        registry
    }

    /// Whether the domain of `marker` has a live owner.
    pub fn is_live(&self, marker: u64) -> (live: bool)
        ensures
            live == self@.live.contains(marker),
    {
        self.live.contains(&marker)
    }

    /// Records `marker` as live, unless it already is; says whether it did.
    pub(crate) fn register(&mut self, marker: u64) -> (fresh: bool)
        ensures
            fresh == old(self)@.vacant(marker),
            final(self)@ == old(self)@.register(marker),
    {
        self.live.insert(marker)
    }

    /// Records `marker` as no longer live, whether or not it was.
    pub(crate) fn unregister(&mut self, marker: u64)
        ensures
            final(self)@ == old(self)@.unregister(marker),
    {
        self.live.remove(&marker);
    }

    /// Takes out the cells that were stored for `marker`.
    pub(crate) fn withdraw(&mut self, marker: u64) -> (cells: Vec<T>)
        ensures
            cells@ == old(self)@.cells_of(marker),
            final(self)@ == old(self)@.withdraw(marker),
    {
        let taken = self.stored.remove(&marker);
        assert(self@.stored =~= old(self)@.stored.remove(marker));
        match taken {
            Some(cells) => cells,
            None => Vec::new(),
        }
    }

    /// Stores `cells` for `marker`, in place of what was stored for it.
    pub(crate) fn deposit(&mut self, marker: u64, cells: Vec<T>)
        ensures
            final(self)@ == old(self)@.deposit(marker, cells@),
    {
        self.stored.insert(marker, cells);
        assert(self@.stored =~= old(self)@.stored.insert(marker, cells@));
    }
}

} // verus!
