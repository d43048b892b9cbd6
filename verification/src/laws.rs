//! Laws of the aggregate operations, proved over their models.

use crate::bins::{
    absent_bin, average_of, bin_fits, combine, combine_all, combine_into, count_of, finalize_all,
    fold, fold_all, fold_step, singleton, value_of, AggregateValue, Bin,
};
use crate::expressions::{AggregationView, Aggregator, ColumnView};
use crate::memory::{
    memory_add, memory_finalize, memory_fits, memory_holds, memory_remove, MemoryView,
};
use crate::multiset::{greatest, least, lemma_greatest_insert, lemma_least_insert};
use crate::operators::AggregateProjectionView;
use crate::records::field_of;
use crate::two_phase_projection::{two_phase_of, TwoPhaseAggregateProjectionView};
use crate::types::StructDefView;
use vstd::multiset::Multiset;
use vstd::prelude::*;
use vstd::seq_lib::{
    commutative_foldl, lemma_fold_left_permutation, lemma_multiset_commutative, to_multiset_build,
    to_multiset_remove,
};

verus! {

/// Combining is associative.
pub proof fn lemma_combine_associative(aggregator: Aggregator, a: Bin, b: Bin, c: Bin)
    requires
        aggregator.decomposable(),
    ensures
        combine(aggregator, combine(aggregator, a, b), c) == combine(
            aggregator,
            a,
            combine(aggregator, b, c),
        ),
{
}

/// Combining bins of an aggregate is commutative.
pub proof fn lemma_combine_commutative(aggregator: Aggregator, a: Bin, b: Bin)
    requires
        aggregator.decomposable(),
    ensures
        combine(aggregator, a, b) == combine(aggregator, b, a),
{
}

/// Folding two rows into a bin gives the same bin in either order.
pub proof fn lemma_fold_commutes(aggregator: Aggregator, nullable: bool)
    requires
        aggregator.decomposable(),
    ensures
        commutative_foldl(fold_step(aggregator, nullable)),
{
    let f = fold_step(aggregator, nullable);
    assert forall|x: Option<i64>, y: Option<i64>, v: Option<Bin>| #[trigger]
        f(f(v, x), y) == f(f(v, y), x) by {
        let sx = singleton(aggregator, nullable, x);
        let sy = singleton(aggregator, nullable, y);
        match v {
            Some(b) => {
                lemma_combine_associative(aggregator, b, sx, sy);
                lemma_combine_associative(aggregator, b, sy, sx);
                lemma_combine_commutative(aggregator, sx, sy);
            },
            None => {
                lemma_combine_commutative(aggregator, sx, sy);
            },
        }
    }
}

/// The bin of a batch depends only on which values it holds and how often,
/// not on their order.
pub proof fn lemma_fold_all_permutation(
    aggregator: Aggregator,
    nullable: bool,
    a: Seq<Option<i64>>,
    b: Seq<Option<i64>>,
)
    requires
        aggregator.decomposable(),
        a.to_multiset() == b.to_multiset(),
    ensures
        fold_all(aggregator, nullable, a) == fold_all(aggregator, nullable, b),
{
    lemma_fold_commutes(aggregator, nullable);
    lemma_fold_left_permutation(a, b, fold_step(aggregator, nullable), None);
}

/// Folding a batch `a` followed by a batch `b` gives the combination of
/// their bins.
pub proof fn lemma_fold_all_concat(
    aggregator: Aggregator,
    nullable: bool,
    a: Seq<Option<i64>>,
    b: Seq<Option<i64>>,
)
    requires
        aggregator.decomposable(),
    ensures
        fold_all(aggregator, nullable, a + b) == combine_all(
            aggregator,
            fold_all(aggregator, nullable, a),
            fold_all(aggregator, nullable, b),
        ),
    decreases b.len(),
{
    if b.len() == 0 {
        assert(a + b =~= a);
    } else {
        let rest = b.drop_last();
        let value = b.last();
        lemma_fold_all_concat(aggregator, nullable, a, rest);
        assert((a + b).drop_last() =~= a + rest);
        assert((a + b).last() == value);
        let fa = fold_all(aggregator, nullable, a);
        let fr = fold_all(aggregator, nullable, rest);
        let s = singleton(aggregator, nullable, value);
        match (fa, fr) {
            (Some(x), Some(y)) => {
                lemma_combine_associative(aggregator, x, y, s);
            },
            _ => {},
        }
    }
}

/// Fold and combine agree however a batch is split: for a batch `all`
/// whose values are those of `a` and `b` together, in any order, combining
/// the bins of `a` and `b` gives the bin of `all`, and so the same value.
pub proof fn lemma_fold_combine(
    aggregator: Aggregator,
    nullable: bool,
    a: Seq<Option<i64>>,
    b: Seq<Option<i64>>,
    all: Seq<Option<i64>>,
)
    requires
        aggregator.decomposable(),
        all.to_multiset() == a.to_multiset().add(b.to_multiset()),
    ensures
        combine_all(
            aggregator,
            fold_all(aggregator, nullable, a),
            fold_all(aggregator, nullable, b),
        ) == fold_all(aggregator, nullable, all),
        finalize_all(
            combine_all(
                aggregator,
                fold_all(aggregator, nullable, a),
                fold_all(aggregator, nullable, b),
            ),
        ) == finalize_all(fold_all(aggregator, nullable, all)),
{
    lemma_multiset_commutative(a, b);
    lemma_fold_all_permutation(aggregator, nullable, all, a + b);
    lemma_fold_all_concat(aggregator, nullable, a, b);
}

/// A null leaves a bin as it is.
pub proof fn lemma_null_is_skipped(aggregator: Aggregator, current: Bin)
    requires
        bin_fits(aggregator, true, current),
    ensures
        fold(aggregator, true, Some(current), None) == current,
{
}

/// The bin of a batch of nulls is absent: a count of zero, and no
/// accumulator for the other aggregates, whose value is then null.
pub proof fn lemma_nulls_fold_to_absent(aggregator: Aggregator, values: Seq<Option<i64>>)
    requires
        aggregator.decomposable(),
        forall|i: int| 0 <= i < values.len() ==> values[i] is None,
    ensures
        match fold_all(aggregator, true, values) {
            Some(bin) => values.len() > 0 && bin == absent_bin(aggregator),
            None => values.len() == 0,
        },
        aggregator != Aggregator::Count ==> finalize_all(fold_all(aggregator, true, values))
            == AggregateValue::Null,
    decreases values.len(),
{
    if values.len() > 0 {
        lemma_nulls_fold_to_absent(aggregator, values.drop_last());
    }
}

/// An average over nothing but nulls is null.
pub proof fn lemma_avg_of_nulls_is_null(values: Seq<Option<i64>>)
    requires
        forall|i: int| 0 <= i < values.len() ==> values[i] is None,
    ensures
        finalize_all(fold_all(Aggregator::Avg, true, values)) == AggregateValue::Null,
{
    lemma_nulls_fold_to_absent(Aggregator::Avg, values);
}

/// Removing a bin right after adding it gives back the memory as it was,
/// live-bin counter included; where there was no memory, none is left.
pub proof fn lemma_add_remove_inverse(
    aggregator: Aggregator,
    nullable: bool,
    current: Option<MemoryView>,
    bin: Bin,
)
    requires
        bin_fits(aggregator, nullable, bin),
        current matches Some(memory) ==> memory_fits(aggregator, nullable, memory),
    ensures
        memory_holds(aggregator, memory_add(aggregator, current, bin), bin),
        memory_remove(aggregator, memory_add(aggregator, current, bin), bin) == current,
{
    let added = memory_add(aggregator, current, bin);
    match (current, memory_remove(aggregator, added, bin)) {
        (Some(before), Some(after)) => {
            assert(after.values() =~= before.values());
        },
        _ => {},
    }
}

/// One step of [`memory_of`]: the memory so far, if any, and one more bin.
pub open spec fn add_step(aggregator: Aggregator) -> spec_fn(Option<MemoryView>, Bin) -> Option<
    MemoryView,
> {
    |memory: Option<MemoryView>, bin: Bin| Some(memory_add(aggregator, memory, bin))
}

/// The memory built from scratch over the bins `live`, added in order;
/// `None` where no bin is live.
pub open spec fn memory_of(aggregator: Aggregator, live: Seq<Bin>) -> Option<MemoryView> {
    live.fold_left(None, add_step(aggregator))
}

/// One step of [`combine_bins`]: the bin so far, if any, and one more bin.
pub open spec fn combine_step(aggregator: Aggregator) -> spec_fn(Option<Bin>, Bin) -> Option<Bin> {
    |current: Option<Bin>, bin: Bin| Some(combine_into(aggregator, current, bin))
}

/// The bins `live` combined into one, in order; `None` where there is none.
pub open spec fn combine_bins(aggregator: Aggregator, live: Seq<Bin>) -> Option<Bin> {
    live.fold_left(None, combine_step(aggregator))
}

/// Every bin of `live` is a bin of the aggregate.
pub open spec fn bins_fit(aggregator: Aggregator, nullable: bool, live: Seq<Bin>) -> bool {
    forall|i: int| 0 <= i < live.len() ==> bin_fits(aggregator, nullable, #[trigger] live[i])
}

/// Adding two bins to a memory gives the same memory in either order.
pub proof fn lemma_add_commutes(aggregator: Aggregator)
    requires
        aggregator.decomposable(),
    ensures
        commutative_foldl(add_step(aggregator)),
{
    let f = add_step(aggregator);
    assert forall|x: Bin, y: Bin, v: Option<MemoryView>| #[trigger]
        f(f(v, x), y) == f(f(v, y), x) by {
        let a = memory_add(aggregator, Some(memory_add(aggregator, v, x)), y);
        let b = memory_add(aggregator, Some(memory_add(aggregator, v, y)), x);
        assert(a.values() =~= b.values());
    }
}

/// The memory built from scratch is a memory of the aggregate, and there
/// is one exactly when some bin is live.
pub proof fn lemma_memory_of_fits(aggregator: Aggregator, nullable: bool, live: Seq<Bin>)
    requires
        bins_fit(aggregator, nullable, live),
    ensures
        match memory_of(aggregator, live) {
            Some(memory) => memory_fits(aggregator, nullable, memory) && memory.bins()
                == live.len(),
            None => live.len() == 0,
        },
    decreases live.len(),
{
    if live.len() > 0 {
        assert(bin_fits(aggregator, nullable, live.last()));
        assert(bins_fit(aggregator, nullable, live.drop_last()));
        lemma_memory_of_fits(aggregator, nullable, live.drop_last());
    }
}

/// Removing a live bin from the memory gives the memory that the remaining
/// live bins build from scratch, whichever of them expires and in whatever
/// order they were added.
pub proof fn lemma_remove_live_bin(aggregator: Aggregator, nullable: bool, live: Seq<Bin>, i: int)
    requires
        bins_fit(aggregator, nullable, live),
        0 <= i < live.len(),
    ensures
        memory_of(aggregator, live) is Some,
        memory_holds(aggregator, memory_of(aggregator, live)->0, live[i]),
        memory_remove(aggregator, memory_of(aggregator, live)->0, live[i]) == memory_of(
            aggregator,
            live.remove(i),
        ),
{
    let rest = live.remove(i);
    let moved = rest.push(live[i]);
    assert(bin_fits(aggregator, nullable, live[i]));
    assert(bins_fit(aggregator, nullable, rest));
    assert(moved.to_multiset() =~= live.to_multiset()) by {
        to_multiset_remove(live, i);
        to_multiset_build(rest, live[i]);
        assert(live.to_multiset().count(live[i]) > 0) by {
            live.to_multiset_ensures();
        }
    }
    lemma_add_commutes(aggregator);
    lemma_fold_left_permutation(live, moved, add_step(aggregator), None);
    assert(moved.drop_last() =~= rest);
    lemma_memory_of_fits(aggregator, nullable, rest);
    lemma_add_remove_inverse(aggregator, nullable, memory_of(aggregator, rest), live[i]);
}

/// Whether `memory` stands for the combined bin `bin`: it holds the same
/// count, sum or average, and for `Min` and `Max` the bin holds the least
/// or the greatest of the memory's values.
pub open spec fn summarizes(aggregator: Aggregator, memory: MemoryView, bin: Bin) -> bool {
    match aggregator {
        Aggregator::Count => memory.count() == count_of(bin),
        Aggregator::Sum => memory.sum() == value_of(bin),
        Aggregator::Min => least(memory.values()) == value_of(bin),
        Aggregator::Max => greatest(memory.values()) == value_of(bin),
        Aggregator::Avg => memory.average() == average_of(bin),
        Aggregator::CountDistinct => false,
    }
}

/// The memory built from scratch stands for the live bins combined.
pub proof fn lemma_memory_summarizes(aggregator: Aggregator, nullable: bool, live: Seq<Bin>)
    requires
        bins_fit(aggregator, nullable, live),
        live.len() > 0,
    ensures
        memory_of(aggregator, live) is Some,
        combine_bins(aggregator, live) is Some,
        bin_fits(aggregator, nullable, combine_bins(aggregator, live)->0),
        summarizes(
            aggregator,
            memory_of(aggregator, live)->0,
            combine_bins(aggregator, live)->0,
        ),
    decreases live.len(),
{
    let rest = live.drop_last();
    let bin = live.last();
    assert(bin_fits(aggregator, nullable, bin));
    assert(bins_fit(aggregator, nullable, rest));
    if rest.len() > 0 {
        lemma_memory_summarizes(aggregator, nullable, rest);
        let memory = memory_of(aggregator, rest)->0;
        match value_of(bin) {
            Some(value) => {
                lemma_least_insert(memory.values(), value);
                lemma_greatest_insert(memory.values(), value);
            },
            None => {},
        }
    } else {
        match value_of(bin) {
            Some(value) => {
                lemma_least_insert(Multiset::empty(), value);
                lemma_greatest_insert(Multiset::empty(), value);
            },
            None => {},
        }
    }
}

/// A sliding window emits what a tumbling window over its live bins would:
/// the value of the memory built from the live bins is the value of those
/// bins combined.
pub proof fn lemma_sliding_is_tumbling(aggregator: Aggregator, nullable: bool, live: Seq<Bin>)
    requires
        bins_fit(aggregator, nullable, live),
        live.len() > 0,
    ensures
        memory_finalize(aggregator, memory_of(aggregator, live)->0) == finalize_all(
            combine_bins(aggregator, live),
        ),
{
    lemma_memory_summarizes(aggregator, nullable, live);
}

/// Whether `memory` is a memory of `projection`: at least one bin is live,
/// and there is one memory for each aggregate, each a memory of its
/// aggregate with as many live bins.
pub open spec fn memories_fit(
    projection: TwoPhaseAggregateProjectionView,
    memory: (nat, Seq<MemoryView>),
) -> bool {
    &&& memory.0 >= 1
    &&& memory.1.len() == projection.aggregates.len()
    &&& forall|i: int|
        0 <= i < memory.1.len() ==> {
            &&& memory_fits(
                projection.aggregates[i].1.aggregator,
                projection.aggregates[i].1.nullable(),
                #[trigger] memory.1[i],
            )
            &&& memory.1[i].bins() == memory.0
        }
}

/// Removing the bins of all aggregates right after adding them gives back
/// the memory of the aggregation as it was, count of live bins included;
/// where there was no memory, none is left.
pub proof fn lemma_projection_add_remove_inverse(
    projection: TwoPhaseAggregateProjectionView,
    current: Option<(nat, Seq<MemoryView>)>,
    bins: Seq<Bin>,
)
    requires
        projection.bins_fit(bins),
        current matches Some(memory) ==> memories_fit(projection, memory),
    ensures
        projection.memory_holds(projection.memory_add(current, bins), bins),
        projection.memory_remove(projection.memory_add(current, bins), bins) == current,
{
    let added = projection.memory_add(current, bins);
    assert forall|i: int| 0 <= i < projection.aggregates.len() implies memory_holds(
        projection.aggregates[i].1.aggregator,
        #[trigger] added.1[i],
        bins[i],
    ) && (current matches Some(memory) ==> memory_remove(
        projection.aggregates[i].1.aggregator,
        added.1[i],
        bins[i],
    ) == Some(memory.1[i])) by {
        assert(projection.aggregates[i].1.fits(bins[i]));
        let before = match current {
            Some(memory) => Some(memory.1[i]),
            None => None,
        };
        lemma_add_remove_inverse(
            projection.aggregates[i].1.aggregator,
            projection.aggregates[i].1.nullable(),
            before,
            bins[i],
        );
    }
    match current {
        Some(memory) => {
            let removed = projection.memory_remove(added, bins).unwrap();
            assert(removed.1 =~= memory.1);
        },
        None => {},
    }
}

/// An aggregation can be computed in two phases unless one of its
/// aggregates is a `CountDistinct`.
pub proof fn lemma_two_phase_gate(projection: AggregateProjectionView)
    ensures
        !projection.supports_two_phase() <==> exists|i: int|
            0 <= i < projection.aggregates.len() && (#[trigger] projection.aggregates[i]).1.aggregator
                == Aggregator::CountDistinct,
{
    if !projection.supports_two_phase() {
        let i = choose|i: int|
            0 <= i < projection.aggregates.len() && !(
            #[trigger] projection.aggregates[i]).1.aggregator.decomposable();
        assert(projection.aggregates[i].1.aggregator == Aggregator::CountDistinct);
    }
}

/// The output record lists the aggregates' fields before the grouping
/// fields, each group in the order given: field `i` is that of aggregate
/// `i`, and the field that follows the last aggregate by `j` places is that
/// of grouping column `j`.
pub proof fn lemma_schema_order(projection: AggregateProjectionView)
    ensures
        projection.fields().len() == projection.aggregates.len() + projection.group_bys.len(),
        forall|i: int|
            0 <= i < projection.aggregates.len() ==> #[trigger] projection.fields()[i] == field_of(
                projection.aggregates[i].0,
                projection.aggregates[i].1.return_type(),
            ),
        forall|j: int|
            0 <= j < projection.group_bys.len() ==> #[trigger] projection.fields()[
                projection.aggregates.len() + j
            ] == field_of(projection.group_bys[j].0, projection.group_bys[j].2),
{
}

/// The output record has no two fields of the same name and alias exactly
/// when no two output columns are the same.
pub proof fn lemma_schema_unique(projection: AggregateProjectionView, schema: StructDefView)
    requires
        schema.fields == projection.fields(),
    ensures
        schema.has_unique_fields() <==> projection.columns().no_duplicates(),
{
    let columns = projection.columns();
    let fields = schema.fields;
    assert(fields.len() == columns.len());
    assert forall|i: int| 0 <= i < fields.len() implies (#[trigger] fields[i]).name
        == columns[i].name && fields[i].alias == columns[i].relation by {}
    if columns.no_duplicates() {
        assert forall|i: int, j: int| 0 <= i < j < fields.len() implies !(fields[i].name
            == fields[j].name && fields[i].alias == fields[j].alias) by {
            assert(columns[i] != columns[j]);
        }
    }
    if schema.has_unique_fields() {
        assert forall|i: int, j: int|
            0 <= i < columns.len() && 0 <= j < columns.len() && i != j implies columns[i]
            != columns[j] by {
            if i < j {
                assert(!(fields[i].name == fields[j].name && fields[i].alias == fields[j].alias));
            } else {
                assert(!(fields[j].name == fields[i].name && fields[j].alias == fields[i].alias));
            }
        }
    }
}

/// The two-phase form of an aggregation has the same output record.
pub proof fn lemma_conversion_keeps_schema(
    projection: AggregateProjectionView,
    two_phase: TwoPhaseAggregateProjectionView,
)
    requires
        two_phase.aggregates == projection.aggregates.map_values(
            |aggregate: (ColumnView, AggregationView)| two_phase_of(aggregate),
        ),
        two_phase.group_bys == projection.group_bys,
    ensures
        two_phase.fields() == projection.fields(),
        two_phase.wf() ==> projection.wf(),
{
    assert(two_phase.aggregate_fields() =~= projection.aggregate_fields());
    if two_phase.wf() {
        assert forall|i: int| 0 <= i < projection.aggregates.len() implies (
        #[trigger] projection.aggregates[i]).1.well_typed() by {
            assert(two_phase.aggregates[i].1.wf());
        }
    }
}

} // verus!
