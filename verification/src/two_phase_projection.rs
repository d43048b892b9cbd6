//! An aggregation in two phases: the bins and the memory of all its
//! aggregates together, and the records that tumbling and sliding windows
//! emit.

use crate::bins::{combine, finalize, fold, value_fits, AggregateValue, Bin, BinType};
use crate::expressions::{AggregationView, Column, ColumnView};
use crate::memory::{
    memory_add, memory_finalize, memory_holds, memory_remove, memory_type_of, Memory, MemoryType,
    MemoryView,
};
use crate::operators::{
    clone_group_bys, group_assignments, group_bys_view, group_fields, push_group_assignments,
    push_group_fields, AggregateProjection, GroupByView,
};
use crate::records::{
    assigned_fields, assignments_view, field_of, Assignment, AssignmentView, FieldSource,
    FieldSourceView, StructExpression,
};
use crate::two_phase::{AggregateError, TwoPhaseAggregation, TwoPhaseAggregationView};
use crate::types::{
    fields_view, lemma_struct_def_view, StructDef, StructField, StructFieldView, TypeDef,
};
use vstd::prelude::*;

verus! {

/// An aggregation in two phases: rows are folded into bins, one for each
/// aggregate, and bins are combined, or added to and removed from memory.
/// The memory of a sliding window is the number of its live bins with the
/// memory of each aggregate, in order.
#[derive(Debug, PartialEq, Eq)]
pub struct TwoPhaseAggregateProjection {
    pub aggregates: Vec<(Column, TwoPhaseAggregation)>,
    pub group_bys: Vec<(Column, String, TypeDef)>,
}

/// Mathematical model of a [`TwoPhaseAggregateProjection`].
pub ghost struct TwoPhaseAggregateProjectionView {
    pub aggregates: Seq<(ColumnView, TwoPhaseAggregationView)>,
    pub group_bys: Seq<GroupByView>,
}

impl TwoPhaseAggregateProjectionView {
    /// Every aggregate is well formed.
    pub open spec fn wf(self) -> bool {
        forall|i: int| 0 <= i < self.aggregates.len() ==> (#[trigger] self.aggregates[i]).1.wf()
    }

    /// The output fields of the aggregates, in order: each named after its
    /// column and typed by its aggregate's value.
    pub open spec fn aggregate_fields(self) -> Seq<StructFieldView> {
        Seq::new(
            self.aggregates.len(),
            |i: int| field_of(self.aggregates[i].0, self.aggregates[i].1.return_type()),
        )
    }

    /// The fields of the output record: those of the aggregates, then those
    /// of the grouping columns.
    pub open spec fn fields(self) -> Seq<StructFieldView> {
        self.aggregate_fields() + group_fields(self.group_bys)
    }

    /// `bins` holds one bin for each aggregate, each a bin of its aggregate.
    pub open spec fn bins_fit(self, bins: Seq<Bin>) -> bool {
        &&& bins.len() == self.aggregates.len()
        &&& forall|i: int| 0 <= i < bins.len() ==> self.aggregates[i].1.fits(#[trigger] bins[i])
    }

    /// `values` holds one value for each aggregate, null only where the
    /// aggregate's input is nullable.
    pub open spec fn values_fit(self, values: Seq<Option<i64>>) -> bool {
        &&& values.len() == self.aggregates.len()
        &&& forall|i: int|
            0 <= i < values.len() ==> value_fits(
                self.aggregates[i].1.nullable(),
                #[trigger] values[i],
            )
    }

    /// The bins of the rows of `current` and `arg` together: each
    /// aggregate's bins combined, or `arg` where there is no current bin.
    pub open spec fn combine(self, current: Option<Seq<Bin>>, arg: Seq<Bin>) -> Seq<Bin> {
        match current {
            Some(current) => Seq::new(
                self.aggregates.len(),
                |i: int| combine(self.aggregates[i].1.aggregator, current[i], arg[i]),
            ),
            None => arg,
        }
    }

    /// The bins after one more row: each aggregate's bin with the value of
    /// its input on that row folded in.
    pub open spec fn fold(self, current: Option<Seq<Bin>>, values: Seq<Option<i64>>) -> Seq<Bin> {
        Seq::new(
            self.aggregates.len(),
            |i: int|
                fold(
                    self.aggregates[i].1.aggregator,
                    self.aggregates[i].1.nullable(),
                    match current {
                        Some(current) => Some(current[i]),
                        None => None,
                    },
                    values[i],
                ),
        )
    }

    /// The assignments of the aggregates, given the value of each: each
    /// aggregate's field takes its value.
    pub open spec fn aggregate_assignments(self, values: Seq<AggregateValue>) -> Seq<
        AssignmentView,
    > {
        Seq::new(
            self.aggregates.len(),
            |i: int|
                AssignmentView {
                    field: field_of(self.aggregates[i].0, self.aggregates[i].1.return_type()),
                    value: FieldSourceView::Value(values[i]),
                },
        )
    }

    /// The values of the aggregates over a tumbling window, from its bins.
    pub open spec fn bin_values(self, bins: Seq<Bin>) -> Seq<AggregateValue> {
        Seq::new(self.aggregates.len(), |i: int| finalize(bins[i]))
    }

    /// The values of the aggregates over a sliding window, from its memory.
    pub open spec fn memory_values(self, memories: Seq<MemoryView>) -> Seq<AggregateValue> {
        Seq::new(
            self.aggregates.len(),
            |i: int| memory_finalize(self.aggregates[i].1.aggregator, memories[i]),
        )
    }

    /// The memory after the bins `bins` became live: one more live bin, and
    /// each aggregate's bin added to its memory. Without a current memory
    /// the bins start one.
    pub open spec fn memory_add(self, current: Option<(nat, Seq<MemoryView>)>, bins: Seq<Bin>) -> (
        nat,
        Seq<MemoryView>,
    ) {
        (
            match current {
                Some(current) => current.0 + 1,
                None => 1,
            },
            Seq::new(
                self.aggregates.len(),
                |i: int|
                    memory_add(
                        self.aggregates[i].1.aggregator,
                        match current {
                            Some(current) => Some(current.1[i]),
                            None => None,
                        },
                        bins[i],
                    ),
            ),
        )
    }

    /// Whether `bins` can be live bins of the memory, aggregate by
    /// aggregate.
    pub open spec fn memory_holds(self, current: (nat, Seq<MemoryView>), bins: Seq<Bin>) -> bool {
        forall|i: int|
            0 <= i < self.aggregates.len() ==> memory_holds(
                self.aggregates[i].1.aggregator,
                #[trigger] current.1[i],
                bins[i],
            )
    }

    /// The memory after the live bins `bins` expired: `None` when they were
    /// the last live bins; otherwise one live bin fewer, and each
    /// aggregate's bin removed from its memory.
    pub open spec fn memory_remove(self, current: (nat, Seq<MemoryView>), bins: Seq<Bin>) -> Option<
        (nat, Seq<MemoryView>),
    > {
        if current.0 <= 1 {
            None
        } else {
            Some(
                (
                    (current.0 - 1) as nat,
                    Seq::new(
                        self.aggregates.len(),
                        |i: int|
                            memory_remove(
                                self.aggregates[i].1.aggregator,
                                current.1[i],
                                bins[i],
                            )->0,
                    ),
                ),
            )
        }
    }

    /// The shapes of the aggregates' bins, in order.
    pub open spec fn bin_types(self) -> Seq<BinType> {
        Seq::new(self.aggregates.len(), |i: int| self.aggregates[i].1.bin_type())
    }

    /// The shapes of the aggregates' memories, in order.
    pub open spec fn memory_types(self) -> Seq<MemoryType> {
        Seq::new(
            self.aggregates.len(),
            |i: int|
                memory_type_of(
                    self.aggregates[i].1.aggregator,
                    self.aggregates[i].1.nullable(),
                    self.aggregates[i].1.accumulator()->0,
                ),
        )
    }
}

impl View for TwoPhaseAggregateProjection {
    type V = TwoPhaseAggregateProjectionView;

    open spec fn view(&self) -> TwoPhaseAggregateProjectionView {
        TwoPhaseAggregateProjectionView {
            aggregates: Seq::new(
                self.aggregates@.len(),
                |i: int| (self.aggregates@[i].0@, self.aggregates@[i].1@),
            ),
            group_bys: group_bys_view(self.group_bys@),
        }
    }
}

/// The two-phase form of an aggregate of a one-phase aggregation.
pub open spec fn two_phase_of(aggregate: (ColumnView, AggregationView)) -> (
    ColumnView,
    TwoPhaseAggregationView,
) {
    (
        aggregate.0,
        TwoPhaseAggregationView { input: aggregate.1.input, aggregator: aggregate.1.aggregator },
    )
}

/// The models of a list of memories, in order.
pub open spec fn memories_view(memories: Seq<Memory>) -> Seq<MemoryView> {
    Seq::new(memories.len(), |i: int| memories[i]@)
}

/// The model of the memory of an aggregation: the count of live bins and
/// the models of the aggregates' memories.
pub open spec fn memory_model(memory: (usize, Vec<Memory>)) -> (nat, Seq<MemoryView>) {
    (memory.0 as nat, memories_view(memory.1@))
}

/// The model of an optional memory of an aggregation.
pub open spec fn optional_memory_model(memory: Option<(usize, Vec<Memory>)>) -> Option<
    (nat, Seq<MemoryView>),
> {
    match memory {
        Some(memory) => Some(memory_model(memory)),
        None => None,
    }
}

/// The bins behind an optional reference.
pub open spec fn bins_view(bins: Option<&Vec<Bin>>) -> Option<Seq<Bin>> {
    match bins {
        Some(bins) => Some(bins@),
        None => None,
    }
}

impl Clone for TwoPhaseAggregateProjection {
    fn clone(&self) -> (r: Self)
        ensures
            r@ == self@,
    {
        let mut aggregates: Vec<(Column, TwoPhaseAggregation)> = Vec::new();
        let mut i: usize = 0;
        while i < self.aggregates.len()
            invariant
                i <= self.aggregates.len(),
                aggregates.len() == i,
                forall|j: int|
                    0 <= j < i ==> (aggregates[j].0@, aggregates[j].1@) == (
                        self.aggregates[j].0@,
                        self.aggregates[j].1@,
                    ),
            decreases self.aggregates.len() - i,
        {
            aggregates.push((self.aggregates[i].0.clone(), self.aggregates[i].1.clone()));
            i += 1;
        }
        let r = Self { aggregates, group_bys: clone_group_bys(&self.group_bys) };
        assert(r@.aggregates =~= self@.aggregates);
        r
    }
}

impl TwoPhaseAggregateProjection {
    /// Whether every aggregate is well formed.
    pub fn is_well_formed(&self) -> (r: bool)
        ensures
            r == self@.wf(),
    {
        let mut i: usize = 0;
        while i < self.aggregates.len()
            invariant
                i <= self.aggregates.len(),
                forall|j: int| 0 <= j < i ==> (#[trigger] self@.aggregates[j]).1.wf(),
            decreases self.aggregates.len() - i,
        {
            if !self.aggregates[i].1.is_well_formed() {
                assert(!self@.aggregates[i as int].1.wf());
                return false;
            }
            i += 1;
        }
        true
    }

    /// Whether `bins` holds one bin for each aggregate, each a bin of its
    /// aggregate.
    pub fn fits_bins(&self, bins: &Vec<Bin>) -> (r: bool)
        ensures
            r == self@.bins_fit(bins@),
    {
        if bins.len() != self.aggregates.len() {
            return false;
        }
        let mut i: usize = 0;
        while i < bins.len()
            invariant
                i <= bins.len(),
                bins.len() == self.aggregates.len(),
                forall|j: int| 0 <= j < i ==> self@.aggregates[j].1.fits(#[trigger] bins[j]),
            decreases bins.len() - i,
        {
            let aggregate = &self.aggregates[i].1;
            if !bins[i].fits(aggregate.aggregator, aggregate.incoming_expression.nullable()) {
                assert(!self@.aggregates[i as int].1.fits(bins[i as int]));
                return false;
            }
            i += 1;
        }
        true
    }

    /// Whether `values` holds one value for each aggregate, null only where
    /// the aggregate's input is nullable.
    pub fn fits_values(&self, values: &Vec<Option<i64>>) -> (r: bool)
        ensures
            r == self@.values_fit(values@),
    {
        if values.len() != self.aggregates.len() {
            return false;
        }
        let mut i: usize = 0;
        while i < values.len()
            invariant
                i <= values.len(),
                values.len() == self.aggregates.len(),
                forall|j: int|
                    0 <= j < i ==> value_fits(
                        self@.aggregates[j].1.nullable(),
                        #[trigger] values[j],
                    ),
            decreases values.len() - i,
        {
            if values[i].is_none() && !self.aggregates[i].1.incoming_expression.nullable() {
                assert(!value_fits(self@.aggregates[i as int].1.nullable(), values[i as int]));
                return false;
            }
            i += 1;
        }
        true
    }

    /// Whether `memory` is a memory of this aggregation.
    pub fn fits_memory(&self, memory: &(usize, Vec<Memory>)) -> (r: bool)
        ensures
            r == self.holds(*memory),
    {
        if memory.0 < 1 || memory.1.len() != self.aggregates.len() {
            return false;
        }
        let mut i: usize = 0;
        while i < memory.1.len()
            invariant
                i <= memory.1.len(),
                memory.1.len() == self.aggregates.len(),
                forall|j: int|
                    0 <= j < i ==> {
                        &&& self.aggregates[j].1.holds(#[trigger] memory.1[j])
                        &&& memory.1[j]@.bins() == memory.0
                    },
            decreases memory.1.len() - i,
        {
            let aggregate = &self.aggregates[i].1;
            let fits = memory.1[i].fits(
                aggregate.aggregator,
                aggregate.incoming_expression.nullable(),
            );
            if !fits || memory.1[i].bins() != memory.0 {
                assert(!(self.aggregates[i as int].1.holds(memory.1[i as int])
                    && memory.1[i as int]@.bins() == memory.0));
                return false;
            }
            i += 1;
        }
        true
    }

    /// Whether `bins` can be live bins of `memory`, aggregate by aggregate.
    pub fn holds_bins(&self, memory: &(usize, Vec<Memory>), bins: &Vec<Bin>) -> (r: bool)
        requires
            self.holds(*memory),
            self@.bins_fit(bins@),
        ensures
            r == self@.memory_holds(memory_model(*memory), bins@),
    {
        let ghost model = memory_model(*memory);
        let mut i: usize = 0;
        while i < self.aggregates.len()
            invariant
                i <= self.aggregates.len(),
                self.holds(*memory),
                self@.bins_fit(bins@),
                model == memory_model(*memory),
                forall|j: int|
                    0 <= j < i ==> memory_holds(
                        self@.aggregates[j].1.aggregator,
                        #[trigger] model.1[j],
                        bins[j],
                    ),
            decreases self.aggregates.len() - i,
        {
            if !memory.1[i].holds(self.aggregates[i].1.aggregator, bins[i]) {
                assert(!memory_holds(
                    self@.aggregates[i as int].1.aggregator,
                    model.1[i as int],
                    bins[i as int],
                ));
                return false;
            }
            i += 1;
        }
        true
    }

    /// Combines the bins of two batches, aggregate by aggregate. Without a
    /// current bin the result is `arg`.
    pub fn combine_bin_syn_expr(&self, current_bin: Option<&Vec<Bin>>, arg: &Vec<Bin>) -> (r: Vec<
        Bin,
    >)
        requires
            self@.wf(),
            self@.bins_fit(arg@),
            current_bin matches Some(current) ==> self@.bins_fit(current@),
        ensures
            r@ == self@.combine(bins_view(current_bin), arg@),
            self@.bins_fit(r@),
    {
        let mut bins: Vec<Bin> = Vec::new();
        let mut i: usize = 0;
        while i < self.aggregates.len()
            invariant
                self@.wf(),
                self@.bins_fit(arg@),
                current_bin matches Some(current) ==> self@.bins_fit(current@),
                i <= self.aggregates.len(),
                bins.len() == i,
                forall|j: int|
                    0 <= j < i ==> bins[j] == match current_bin {
                        Some(current) => combine(
                            self@.aggregates[j].1.aggregator,
                            current[j],
                            arg[j],
                        ),
                        None => arg[j],
                    },
                forall|j: int| 0 <= j < i ==> self@.aggregates[j].1.fits(#[trigger] bins[j]),
            decreases self.aggregates.len() - i,
        {
            assert(self@.aggregates[i as int].1.wf());
            assert(self@.aggregates[i as int].1.fits(arg@[i as int]));
            let bin = match current_bin {
                Some(current) => {
                    assert(self@.aggregates[i as int].1.fits(current@[i as int]));
                    self.aggregates[i].1.combine_bin_syn_expr(current[i], arg[i])
                },
                None => arg[i],
            };
            bins.push(bin);
            i += 1;
        }
        assert(bins@ =~= self@.combine(bins_view(current_bin), arg@));
        bins
    }

    /// Folds one row into the bins, aggregate by aggregate. `values` holds
    /// what each aggregate's input expression evaluates to on the row.
    pub fn bin_merger_syn_expression(
        &self,
        current_bin: Option<&Vec<Bin>>,
        values: &Vec<Option<i64>>,
    ) -> (r: Vec<Bin>)
        requires
            self@.wf(),
            self@.values_fit(values@),
            current_bin matches Some(current) ==> self@.bins_fit(current@),
        ensures
            r@ == self@.fold(bins_view(current_bin), values@),
            self@.bins_fit(r@),
    {
        let mut bins: Vec<Bin> = Vec::new();
        let mut i: usize = 0;
        while i < self.aggregates.len()
            invariant
                self@.wf(),
                self@.values_fit(values@),
                current_bin matches Some(current) ==> self@.bins_fit(current@),
                i <= self.aggregates.len(),
                bins.len() == i,
                forall|j: int|
                    0 <= j < i ==> bins[j] == self@.fold(bins_view(current_bin), values@)[j],
                forall|j: int| 0 <= j < i ==> self@.aggregates[j].1.fits(#[trigger] bins[j]),
            decreases self.aggregates.len() - i,
        {
            assert(self@.aggregates[i as int].1.wf());
            assert(value_fits(self@.aggregates[i as int].1.nullable(), values@[i as int]));
            let current = match current_bin {
                Some(current) => {
                    assert(self@.aggregates[i as int].1.fits(current@[i as int]));
                    Some(current[i])
                },
                None => None,
            };
            bins.push(self.aggregates[i].1.bin_syn_expr(current, values[i]));
            i += 1;
        }
        assert(bins@ =~= self@.fold(bins_view(current_bin), values@));
        bins
    }

    /// Whether `memory` is a memory of this aggregation: at least one bin
    /// is live, and there is one memory for each aggregate, each a memory
    /// of its aggregate with as many live bins.
    pub open spec fn holds(&self, memory: (usize, Vec<Memory>)) -> bool {
        self.holds_all(memory.0, memory.1@)
    }

    /// [`Self::holds`], of a count of live bins and a sequence of memories.
    pub open spec fn holds_all(&self, bins: usize, memories: Seq<Memory>) -> bool {
        &&& bins >= 1
        &&& memories.len() == self.aggregates.len()
        &&& forall|i: int|
            0 <= i < memories.len() ==> {
                &&& self.aggregates[i].1.holds(#[trigger] memories[i])
                &&& memories[i]@.bins() == bins
            }
    }

    /// Makes the bins `bin_value` live bins of the memory; `current` is
    /// `None` while no bin is live.
    pub fn memory_add_syn_expression(
        &self,
        current: Option<(usize, Vec<Memory>)>,
        bin_value: &Vec<Bin>,
    ) -> (r: (usize, Vec<Memory>))
        requires
            self@.wf(),
            self@.bins_fit(bin_value@),
            current matches Some(memory) ==> self.holds(memory) && memory.0 < usize::MAX,
        ensures
            memory_model(r) == self@.memory_add(optional_memory_model(current), bin_value@),
            self.holds(r),
    {
        match current {
            Some((i, current)) => {
                let ghost before = current@;
                let mut memories = current;
                let mut k: usize = 0;
                while k < self.aggregates.len()
                    invariant
                        self@.wf(),
                        self@.bins_fit(bin_value@),
                        self.holds_all(i, before),
                        i < usize::MAX,
                        k <= self.aggregates.len(),
                        memories.len() == self.aggregates.len(),
                        before.len() == self.aggregates.len(),
                        forall|j: int|
                            k <= j < memories.len() ==> memories[j] == #[trigger] before[j],
                        forall|j: int|
                            0 <= j < k ==> {
                                &&& self.aggregates[j].1.holds(#[trigger] memories[j])
                                &&& memories[j]@ == memory_add(
                                    self@.aggregates[j].1.aggregator,
                                    Some(before[j]@),
                                    bin_value[j],
                                )
                            },
                    decreases self.aggregates.len() - k,
                {
                    assert(self@.aggregates[k as int].1.wf());
                    assert(self@.aggregates[k as int].1.fits(bin_value@[k as int]));
                    assert(self.aggregates[k as int].1.holds(before[k as int]));
                    let mut memory = Memory::Count { bins: 0, count: 0 };
                    core::mem::swap(&mut memories[k], &mut memory);
                    let added = self.aggregates[k].1.memory_add_syn_expr(
                        Some(memory),
                        bin_value[k],
                    );
                    memories[k] = added;
                    k += 1;
                }
                let r = (i + 1, memories);
                proof {
                    assert(memory_model(r).1 =~= self@.memory_add(
                        Some((i as nat, memories_view(before))),
                        bin_value@,
                    ).1);
                }
                r
            },
            None => {
                let mut memories: Vec<Memory> = Vec::new();
                let mut k: usize = 0;
                while k < self.aggregates.len()
                    invariant
                        self@.wf(),
                        self@.bins_fit(bin_value@),
                        k <= self.aggregates.len(),
                        memories.len() == k,
                        forall|j: int|
                            0 <= j < k ==> {
                                &&& self.aggregates[j].1.holds(#[trigger] memories[j])
                                &&& memories[j]@ == memory_add(
                                    self@.aggregates[j].1.aggregator,
                                    None,
                                    bin_value[j],
                                )
                            },
                    decreases self.aggregates.len() - k,
                {
                    assert(self@.aggregates[k as int].1.wf());
                    assert(self@.aggregates[k as int].1.fits(bin_value@[k as int]));
                    memories.push(self.aggregates[k].1.memory_add_syn_expr(None, bin_value[k]));
                    k += 1;
                }
                let r = (1, memories);
                proof {
                    assert(memory_model(r).1 =~= self@.memory_add(None, bin_value@).1);
                }
                r
            },
        }
    }

    /// Takes the expiring live bins `bin_value` out of the memory; `None`
    /// when they were the last live bins.
    pub fn memory_remove_syn_expression(
        &self,
        current: (usize, Vec<Memory>),
        bin_value: &Vec<Bin>,
    ) -> (r: Option<(usize, Vec<Memory>)>)
        requires
            self@.wf(),
            self@.bins_fit(bin_value@),
            self.holds(current),
            self@.memory_holds(memory_model(current), bin_value@),
        ensures
            optional_memory_model(r) == self@.memory_remove(memory_model(current), bin_value@),
            r matches Some(memory) ==> self.holds(memory),
    {
        let (bins, current) = current;
        if bins == 1 {
            return None;
        }
        let ghost before = current@;
        let ghost model = (bins as nat, memories_view(before));
        let mut memories = current;
        let mut k: usize = 0;
        while k < self.aggregates.len()
            invariant
                self@.wf(),
                self@.bins_fit(bin_value@),
                self.holds_all(bins, before),
                model == (bins as nat, memories_view(before)),
                self@.memory_holds(model, bin_value@),
                bins > 1,
                k <= self.aggregates.len(),
                memories.len() == self.aggregates.len(),
                before.len() == self.aggregates.len(),
                forall|j: int| k <= j < memories.len() ==> memories[j] == #[trigger] before[j],
                forall|j: int|
                    0 <= j < k ==> {
                        &&& self.aggregates[j].1.holds(#[trigger] memories[j])
                        &&& Some(memories[j]@) == memory_remove(
                            self@.aggregates[j].1.aggregator,
                            before[j]@,
                            bin_value[j],
                        )
                    },
            decreases self.aggregates.len() - k,
        {
            assert(self@.aggregates[k as int].1.wf());
            assert(self@.aggregates[k as int].1.fits(bin_value@[k as int]));
            assert(self.aggregates[k as int].1.holds(before[k as int]));
            assert(memory_holds(
                self@.aggregates[k as int].1.aggregator,
                model.1[k as int],
                bin_value@[k as int],
            ));
            let mut memory = Memory::Count { bins: 0, count: 0 };
            core::mem::swap(&mut memories[k], &mut memory);
            match self.aggregates[k].1.memory_remove_syn_expr(memory, bin_value[k]) {
                Some(removed) => {
                    memories[k] = removed;
                },
                None => {
                    assert(false);
                },
            }
            k += 1;
        }
        let r = (bins - 1, memories);
        proof {
            let removed = self@.memory_remove(
                (bins as nat, memories_view(before)),
                bin_value@,
            ).unwrap();
            assert(memory_model(r).1 =~= removed.1);
        }
        Some(r)
    }

    /// The output fields of the aggregates, in order.
    fn aggregate_fields(&self) -> (r: Vec<StructField>)
        requires
            self@.wf(),
        ensures
            fields_view(r@) == self@.aggregate_fields(),
    {
        let mut fields: Vec<StructField> = Vec::new();
        let mut i: usize = 0;
        while i < self.aggregates.len()
            invariant
                self@.wf(),
                i <= self.aggregates.len(),
                fields.len() == i,
                forall|j: int| 0 <= j < i ==> fields[j]@ == self@.aggregate_fields()[j],
            decreases self.aggregates.len() - i,
        {
            assert(self@.aggregates[i as int].1.wf());
            let column = self.aggregates[i].0.clone();
            let field_type = self.aggregates[i].1.return_type();
            fields.push(StructField::new(column.name, column.relation, field_type));
            i += 1;
        }
        assert(fields_view(fields@) =~= self@.aggregate_fields());
        fields
    }

    /// The type of the output record: one field for each aggregate, then
    /// one for each grouping column, each in the order given.
    pub fn output_struct(&self) -> (r: StructDef)
        requires
            self@.wf(),
        ensures
            r@.name is None,
            r@.fields == self@.fields(),
            r@.format is None,
    {
        let mut fields = self.aggregate_fields();
        push_group_fields(&self.group_bys, &mut fields);
        let r = StructDef::for_fields(fields);
        proof {
            lemma_struct_def_view(r);
        }
        r
    }

    /// The expression that builds the output record from the assignments
    /// of the aggregates: the grouping columns are assigned after them.
    fn aggregate_expr(&self, assignments: Vec<Assignment>) -> (r: StructExpression)
        requires
            self@.wf(),
            assigned_fields(assignments_view(assignments@)) == self@.aggregate_fields(),
        ensures
            r@.output_type.name is None,
            r@.output_type.fields == self@.fields(),
            r@.output_type.format is None,
            r@.assignments == assignments_view(assignments@) + group_assignments(
                self@.group_bys,
            ),
            r@.in_schema_order(),
    {
        let ghost aggregates = assignments_view(assignments@);
        let mut assignments = assignments;
        push_group_assignments(&self.group_bys, &mut assignments);
        let output_type = self.output_struct();
        let r = StructExpression { output_type, assignments };
        assert(assigned_fields(r@.assignments) =~= assigned_fields(aggregates) + group_fields(
            self@.group_bys,
        ));
        r
    }

    /// The record that a tumbling window emits for a group, from the bins
    /// `arg` of its rows: each aggregate's field takes the value of its bin,
    /// and each grouping field that of its grouping expression.
    pub fn tumbling_aggregation_syn_expression(&self, arg: &Vec<Bin>) -> (r: StructExpression)
        requires
            self@.wf(),
            self@.bins_fit(arg@),
        ensures
            r@.output_type.name is None,
            r@.output_type.fields == self@.fields(),
            r@.output_type.format is None,
            r@.assignments == self@.aggregate_assignments(self@.bin_values(arg@))
                + group_assignments(self@.group_bys),
            r@.in_schema_order(),
    {
        let mut assignments: Vec<Assignment> = Vec::new();
        let mut i: usize = 0;
        while i < self.aggregates.len()
            invariant
                self@.wf(),
                self@.bins_fit(arg@),
                i <= self.aggregates.len(),
                assignments.len() == i,
                forall|j: int|
                    0 <= j < i ==> assignments[j]@ == self@.aggregate_assignments(
                        self@.bin_values(arg@),
                    )[j],
            decreases self.aggregates.len() - i,
        {
            assert(self@.aggregates[i as int].1.wf());
            assert(self@.aggregates[i as int].1.fits(arg@[i as int]));
            let column = self.aggregates[i].0.clone();
            let data_type = self.aggregates[i].1.return_type();
            let value = self.aggregates[i].1.bin_aggregating_expression(&arg[i]);
            assignments.push(
                Assignment {
                    field: StructField::new(column.name, column.relation, data_type),
                    value: FieldSource::Value(value),
                },
            );
            i += 1;
        }
        assert(assignments_view(assignments@) =~= self@.aggregate_assignments(
            self@.bin_values(arg@),
        ));
        assert(assigned_fields(assignments_view(assignments@)) =~= self@.aggregate_fields());
        self.aggregate_expr(assignments)
    }

    /// The record that a sliding window emits for a group, from its memory
    /// `arg`: each aggregate's field takes the value of its memory, and each
    /// grouping field that of its grouping expression.
    pub fn sliding_aggregation_syn_expression(&self, arg: &(usize, Vec<Memory>)) -> (r:
        StructExpression)
        requires
            self@.wf(),
            self.holds(*arg),
        ensures
            r@.output_type.name is None,
            r@.output_type.fields == self@.fields(),
            r@.output_type.format is None,
            r@.assignments == self@.aggregate_assignments(
                self@.memory_values(memory_model(*arg).1),
            ) + group_assignments(self@.group_bys),
            r@.in_schema_order(),
    {
        let mut assignments: Vec<Assignment> = Vec::new();
        let mut i: usize = 0;
        while i < self.aggregates.len()
            invariant
                self@.wf(),
                self.holds(*arg),
                i <= self.aggregates.len(),
                assignments.len() == i,
                forall|j: int|
                    0 <= j < i ==> assignments[j]@ == self@.aggregate_assignments(
                        self@.memory_values(memory_model(*arg).1),
                    )[j],
            decreases self.aggregates.len() - i,
        {
            assert(self@.aggregates[i as int].1.wf());
            assert(self.aggregates[i as int].1.holds(arg.1@[i as int]));
            let column = self.aggregates[i].0.clone();
            let data_type = self.aggregates[i].1.return_type();
            let value = self.aggregates[i].1.to_aggregating_syn_expression(&arg.1[i]);
            assignments.push(
                Assignment {
                    field: StructField::new(column.name, column.relation, data_type),
                    value: FieldSource::Value(value),
                },
            );
            i += 1;
        }
        assert(assignments_view(assignments@) =~= self@.aggregate_assignments(
            self@.memory_values(memory_model(*arg).1),
        ));
        assert(assigned_fields(assignments_view(assignments@)) =~= self@.aggregate_fields());
        self.aggregate_expr(assignments)
    }

    /// Whether the bins and memories of this aggregation form a 1-tuple,
    /// which is written with a trailing comma: exactly one aggregate.
    pub fn trailing_comma(&self) -> (r: bool)
        ensures
            r == (self@.aggregates.len() == 1),
    {
        self.aggregates.len() == 1
    }

    /// The shapes of the bins, one for each aggregate, in order.
    pub fn bin_type(&self) -> (r: Vec<BinType>)
        requires
            self@.wf(),
        ensures
            r@ == self@.bin_types(),
    {
        let mut bin_types: Vec<BinType> = Vec::new();
        let mut i: usize = 0;
        while i < self.aggregates.len()
            invariant
                self@.wf(),
                i <= self.aggregates.len(),
                bin_types.len() == i,
                forall|j: int| 0 <= j < i ==> bin_types[j] == self@.bin_types()[j],
            decreases self.aggregates.len() - i,
        {
            assert(self@.aggregates[i as int].1.wf());
            bin_types.push(self.aggregates[i].1.bin_type());
            i += 1;
        }
        assert(bin_types@ =~= self@.bin_types());
        bin_types
    }

    /// The shapes of the memories, one for each aggregate, in order; in
    /// memory they come after the count of live bins.
    pub fn memory_type(&self) -> (r: Vec<MemoryType>)
        requires
            self@.wf(),
        ensures
            r@ == self@.memory_types(),
    {
        let mut mem_types: Vec<MemoryType> = Vec::new();
        let mut i: usize = 0;
        while i < self.aggregates.len()
            invariant
                self@.wf(),
                i <= self.aggregates.len(),
                mem_types.len() == i,
                forall|j: int| 0 <= j < i ==> mem_types[j] == self@.memory_types()[j],
            decreases self.aggregates.len() - i,
        {
            assert(self@.aggregates[i as int].1.wf());
            mem_types.push(self.aggregates[i].1.mem_type());
            i += 1;
        }
        assert(mem_types@ =~= self@.memory_types());
        mem_types
    }

    /// The two-phase form of `aggregate_projection`: the same aggregates
    /// and grouping columns. It exists exactly when every aggregate can be
    /// computed in two phases; otherwise the first aggregate function that
    /// cannot is reported.
    pub fn try_from(aggregate_projection: AggregateProjection) -> (r: Result<Self, AggregateError>)
        ensures
            match r {
                Ok(projection) => {
                    &&& aggregate_projection@.supports_two_phase()
                    &&& projection@.aggregates == aggregate_projection@.aggregates.map_values(
                        |aggregate: (ColumnView, AggregationView)| two_phase_of(aggregate),
                    )
                    &&& projection@.group_bys == aggregate_projection@.group_bys
                },
                Err(AggregateError::UnsupportedAggregator(aggregator)) => {
                    &&& !aggregate_projection@.supports_two_phase()
                    &&& exists|i: int| #[trigger]
                        aggregate_projection@.blocked_at(i) && aggregator
                            == aggregate_projection@.aggregates[i].1.aggregator
                },
            },
    {
        let ghost source = aggregate_projection@;
        let AggregateProjection { aggregates: mut pending, group_bys } = aggregate_projection;
        let n = pending.len();
        let mut i: usize = 0;
        while i < n
            invariant
                n == pending.len(),
                i <= n,
                source.aggregates.len() == n,
                source == aggregate_projection@,
                forall|j: int|
                    0 <= j < n ==> source.aggregates[j] == (pending[j].0@, pending[j].1@),
                forall|j: int|
                    0 <= j < i ==> (#[trigger] source.aggregates[j]).1.aggregator.decomposable(),
            decreases n - i,
        {
            if !pending[i].1.allows_two_phase() {
                assert(source.blocked_at(i as int));
                return Err(AggregateError::UnsupportedAggregator(pending[i].1.aggregator));
            }
            i += 1;
        }
        // The aggregates are taken from the back; `reversed` holds them in
        // reverse order until the last loop turns them around.
        let mut reversed: Vec<(Column, TwoPhaseAggregation)> = Vec::new();
        while pending.len() > 0
            invariant
                pending.len() + reversed.len() == n,
                source.aggregates.len() == n,
                forall|j: int|
                    0 <= j < n ==> (#[trigger] source.aggregates[j]).1.aggregator.decomposable(),
                forall|j: int|
                    0 <= j < pending.len() ==> source.aggregates[j] == (
                        pending[j].0@,
                        pending[j].1@,
                    ),
                forall|j: int|
                    0 <= j < reversed.len() ==> two_phase_of(source.aggregates[n - 1 - j]) == (
                        reversed[j].0@,
                        reversed[j].1@,
                    ),
            decreases pending.len(),
        {
            let ghost k = pending.len() - 1;
            match pending.pop() {
                Some((column, aggregation)) => {
                    assert(source.aggregates[k].1.aggregator.decomposable());
                    match TwoPhaseAggregation::try_from(aggregation) {
                        Ok(two_phase) => reversed.push((column, two_phase)),
                        Err(_) => unreached(),
                    }
                },
                None => unreached(),
            }
        }
        let mut aggregates: Vec<(Column, TwoPhaseAggregation)> = Vec::new();
        while reversed.len() > 0
            invariant
                reversed.len() + aggregates.len() == n,
                source.aggregates.len() == n,
                forall|j: int|
                    0 <= j < reversed.len() ==> two_phase_of(source.aggregates[n - 1 - j]) == (
                        reversed[j].0@,
                        reversed[j].1@,
                    ),
                forall|j: int|
                    0 <= j < aggregates.len() ==> two_phase_of(source.aggregates[j]) == (
                        aggregates[j].0@,
                        aggregates[j].1@,
                    ),
            decreases reversed.len(),
        {
            match reversed.pop() {
                Some(aggregate) => aggregates.push(aggregate),
                None => unreached(),
            }
        }
        let projection = Self { aggregates, group_bys };
        assert(projection@.aggregates =~= source.aggregates.map_values(
            |aggregate: (ColumnView, AggregationView)| two_phase_of(aggregate),
        ));
        Ok(projection)
    }
}

} // verus!
