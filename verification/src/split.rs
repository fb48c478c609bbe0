//! Sequences cut at a separator, and put together again.

use vstd::prelude::*;

verus! {

/// The runs between the separators of `units`, in order: one more than
/// there are separators, empty runs included.
pub open spec fn split_on<T>(units: Seq<T>, sep: T) -> Seq<Seq<T>>
    decreases units.len(),
{
    if units.len() == 0 {
        seq![Seq::empty()]
    } else {
        let front = split_on(units.drop_last(), sep);
        if units.last() == sep {
            front.push(Seq::empty())
        } else {
            front.update(front.len() - 1, front.last().push(units.last()))
        }
    }
}

/// The runs put together again, with a separator between each two.
pub open spec fn join_with<T>(runs: Seq<Seq<T>>, sep: T) -> Seq<T>
    decreases runs.len(),
{
    if runs.len() == 0 {
        Seq::empty()
    } else if runs.len() == 1 {
        runs[0]
    } else {
        join_with(runs.drop_last(), sep) + seq![sep] + runs.last()
    }
}

/// There is one more run than there are separators, so at least one.
pub proof fn law_split_is_never_empty<T>(units: Seq<T>, sep: T)
    ensures
        split_on(units, sep).len() >= 1,
    decreases units.len(),
{
    if units.len() > 0 {
        law_split_is_never_empty(units.drop_last(), sep);
    }
}

/// Splitting loses nothing: no run holds a separator, and the runs joined
/// with separators are the units that were split.
pub proof fn law_split_then_join<T>(units: Seq<T>, sep: T)
    ensures
        forall|k: int, j: int|
            0 <= k < split_on(units, sep).len() && 0 <= j < split_on(units, sep)[k].len()
                ==> #[trigger] split_on(units, sep)[k][j] != sep,
        join_with(split_on(units, sep), sep) == units,
    decreases units.len(),
{
    law_split_is_never_empty(units, sep);
    if units.len() == 0 {
        assert(join_with(split_on(units, sep), sep) =~= units);
    } else {
        let front_units = units.drop_last();
        let front = split_on(front_units, sep);
        law_split_then_join(front_units, sep);
        law_split_is_never_empty(front_units, sep);
        let runs = split_on(units, sep);
        if units.last() == sep {
            assert(runs.drop_last() =~= front);
            assert(runs.last() =~= Seq::<T>::empty());
            assert(join_with(runs, sep) =~= units);
        } else {
            lemma_join_grows_last(front, sep, units.last());
            assert(join_with(runs, sep) =~= units);
        }
    }
}

/// Appending a unit to the last run appends it to what the runs join to.
proof fn lemma_join_grows_last<T>(runs: Seq<Seq<T>>, sep: T, unit: T)
    requires
        runs.len() >= 1,
    ensures
        join_with(runs.update(runs.len() - 1, runs.last().push(unit)), sep) == join_with(
            runs,
            sep,
        ).push(unit),
{
    let grown = runs.update(runs.len() - 1, runs.last().push(unit));
    if runs.len() == 1 {
        assert(join_with(grown, sep) =~= join_with(runs, sep).push(unit));
    } else {
        assert(grown.drop_last() =~= runs.drop_last());
        assert(join_with(grown, sep) =~= join_with(runs, sep).push(unit));
    }
}

} // verus!
