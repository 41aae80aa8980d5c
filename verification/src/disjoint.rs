use vstd::prelude::*;

verus! {

/// Exclusive borrows of two different items of a slice, in the order asked for.
pub(crate) fn pair_mut<'a, T>(items: &'a mut [T], i: usize, j: usize) -> (pair: (
    &'a mut T,
    &'a mut T,
))
    requires
        i != j,
        i < old(items)@.len(),
        j < old(items)@.len(),
    ensures
        *pair.0 == old(items)@[i as int],
        *pair.1 == old(items)@[j as int],
        final(items)@ == old(items)@.update(i as int, *final(pair.0)).update(
            j as int,
            *final(pair.1),
        ),
{
    if i < j {
        let (low, high) = items.split_at_mut(j);
        (&mut low[i], &mut high[0])
    } else {
        let (low, high) = items.split_at_mut(i);
        (&mut high[0], &mut low[j])
    }
}

/// Exclusive borrows of three different items of a slice, in the order asked for.
pub(crate) fn triple_mut<'a, T>(items: &'a mut [T], i: usize, j: usize, k: usize) -> (triple: (
    &'a mut T,
    &'a mut T,
    &'a mut T,
))
    requires
        i != j,
        j != k,
        k != i,
        i < old(items)@.len(),
        j < old(items)@.len(),
        k < old(items)@.len(),
    ensures
        *triple.0 == old(items)@[i as int],
        *triple.1 == old(items)@[j as int],
        *triple.2 == old(items)@[k as int],
        final(items)@ == old(items)@.update(i as int, *final(triple.0)).update(
            j as int,
            *final(triple.1),
        ).update(k as int, *final(triple.2)),
{
    if i > j && i > k {
        let (low, high) = items.split_at_mut(i);
        let (second, third) = pair_mut(low, j, k);
        (&mut high[0], second, third)
    } else if j > k {
        let (low, high) = items.split_at_mut(j);
        let (first, third) = pair_mut(low, i, k);
        (first, &mut high[0], third)
    } else {
        let (low, high) = items.split_at_mut(k);
        let (first, second) = pair_mut(low, i, j);
        (first, second, &mut high[0])
    }
}

} // verus!
