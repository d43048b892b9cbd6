//! Memory: the running state of one aggregate over the bins that are live
//! in a sliding window, kept up to date as bins enter and leave.

use crate::bins::{
    average_of, count_of, merge_average, merge_optional, value_of, AggregateValue, Bin,
};
use crate::expressions::Aggregator;
use crate::multiset::{greatest, least, OrderedMultiset};
use crate::types::DataType;
use vstd::multiset::Multiset;
use vstd::prelude::*;

verus! {

/// The running state of one aggregate. Each variant counts its live bins;
/// the variants with an optional accumulator also count the live bins that
/// hold a value, so that the accumulator becomes absent again when the last
/// of them leaves.
#[derive(Debug, PartialEq, Eq)]
pub enum Memory {
    /// The sum of the live bins' counts.
    Count { bins: usize, count: i64 },
    /// The sum of the live bins' sums.
    Sum { bins: usize, present: usize, sum: Option<i64> },
    /// The `(count, sum)` of the live bins' averages.
    Average { bins: usize, present: usize, average: Option<(i64, i64)> },
    /// The values of the live bins of a `Min` or `Max`, with multiplicity.
    Extremes { bins: usize, values: OrderedMultiset },
}

/// The shape of an aggregate's memory as an executor that is typed by the
/// accumulator type `T` lays it out. Over a non-nullable input every live
/// bin holds a value, so that fewer counters are needed.
#[derive(Clone, Copy, Debug, PartialEq, Eq)]
pub enum MemoryType {
    /// `(i64, i64)`: live bins and count.
    Count,
    /// `(i64, T)`: live bins and sum.
    Sum(DataType),
    /// `(i64, i64, Option<T>)`: live bins, bins with a value, and sum.
    OptionalSum(DataType),
    /// An ordered map from `T` to its multiplicity.
    Extremes(DataType),
    /// `(i64, ordered map)`: live bins, and the values with multiplicity.
    OptionalExtremes(DataType),
    /// `(i64, T)`: count and sum.
    Average(DataType),
    /// `(i64, i64, Option<(i64, T)>)`: live bins, bins with a value, and
    /// the count and sum.
    OptionalAverage(DataType),
}

/// Mathematical model of a [`Memory`].
pub ghost enum MemoryView {
    Count { bins: nat, count: i64 },
    Sum { bins: nat, present: nat, sum: Option<i64> },
    Average { bins: nat, present: nat, average: Option<(i64, i64)> },
    Extremes { bins: nat, values: Multiset<i64> },
}

impl MemoryView {
    /// The number of live bins.
    pub open spec fn bins(self) -> nat {
        match self {
            MemoryView::Count { bins, .. } => bins,
            MemoryView::Sum { bins, .. } => bins,
            MemoryView::Average { bins, .. } => bins,
            MemoryView::Extremes { bins, .. } => bins,
        }
    }

    /// The number of live bins that hold a value.
    pub open spec fn present(self) -> nat {
        match self {
            MemoryView::Count { bins, .. } => bins,
            MemoryView::Sum { present, .. } => present,
            MemoryView::Average { present, .. } => present,
            MemoryView::Extremes { values, .. } => values.len(),
        }
    }

    /// The count of a `Count` memory, zero for anything else.
    pub open spec fn count(self) -> i64 {
        match self {
            MemoryView::Count { count, .. } => count,
            _ => 0,
        }
    }

    /// The sum of a `Sum` memory, absent for anything else.
    pub open spec fn sum(self) -> Option<i64> {
        match self {
            MemoryView::Sum { sum, .. } => sum,
            _ => None,
        }
    }

    /// The `(count, sum)` of an `Average` memory, absent for anything else.
    pub open spec fn average(self) -> Option<(i64, i64)> {
        match self {
            MemoryView::Average { average, .. } => average,
            _ => None,
        }
    }

    /// The values of an `Extremes` memory, none for anything else.
    pub open spec fn values(self) -> Multiset<i64> {
        match self {
            MemoryView::Extremes { values, .. } => values,
            _ => Multiset::empty(),
        }
    }

    /// At least one bin is live, no more bins hold a value than are live,
    /// and an optional accumulator is present exactly when some live bin
    /// holds a value.
    pub open spec fn wf(self) -> bool {
        &&& self.bins() >= 1
        &&& self.present() <= self.bins()
        &&& self matches MemoryView::Sum { present, sum, .. } ==> (sum is Some <==> present >= 1)
        &&& self matches MemoryView::Average { present, average, .. } ==> (average is Some
            <==> present >= 1)
    }
}

/// The memory of no bins, from which the first bin starts.
pub open spec fn empty_memory(aggregator: Aggregator) -> MemoryView
    recommends
        aggregator.decomposable(),
{
    match aggregator {
        Aggregator::Count => MemoryView::Count { bins: 0, count: 0 },
        Aggregator::Sum => MemoryView::Sum { bins: 0, present: 0, sum: None },
        Aggregator::Min | Aggregator::Max => MemoryView::Extremes {
            bins: 0,
            values: Multiset::empty(),
        },
        Aggregator::Avg => MemoryView::Average { bins: 0, present: 0, average: None },
        Aggregator::CountDistinct => arbitrary(),
    }
}

/// Whether `bin` holds a value: a count always does, an accumulator when it
/// is present.
pub open spec fn holds_value(bin: Bin) -> bool {
    match bin {
        Bin::Count(_) => true,
        Bin::Value(value) => value is Some,
        Bin::Average(average) => average is Some,
    }
}

/// Whether `memory` is a memory of `aggregator` over an input of the given
/// nullability: it is well formed, has the aggregate's variant, and over a
/// non-nullable input every live bin holds a value.
pub open spec fn memory_fits(aggregator: Aggregator, nullable: bool, memory: MemoryView) -> bool {
    &&& memory.wf()
    &&& nullable || memory.present() == memory.bins()
    &&& match aggregator {
        Aggregator::Count => memory is Count,
        Aggregator::Sum => memory is Sum,
        Aggregator::Min | Aggregator::Max => memory is Extremes,
        Aggregator::Avg => memory is Average,
        Aggregator::CountDistinct => false,
    }
}

/// The memory after `bin` became live: one more live bin, and the bin's
/// contribution merged into the accumulator as two bins combine, or its
/// value added to the multiset of a `Min` or `Max`. Without a current
/// memory the bin starts one.
pub open spec fn memory_add(aggregator: Aggregator, current: Option<MemoryView>, bin: Bin)
    -> MemoryView
    recommends
        aggregator.decomposable(),
{
    let memory = match current {
        Some(memory) => memory,
        None => empty_memory(aggregator),
    };
    let bins = memory.bins() + 1;
    let present = if holds_value(bin) {
        memory.present() + 1
    } else {
        memory.present()
    };
    match aggregator {
        Aggregator::Count => MemoryView::Count {
            bins,
            count: memory.count().wrapping_add(count_of(bin)),
        },
        Aggregator::Sum => MemoryView::Sum {
            bins,
            present,
            sum: merge_optional(aggregator, memory.sum(), value_of(bin)),
        },
        Aggregator::Min | Aggregator::Max => MemoryView::Extremes {
            bins,
            values: match value_of(bin) {
                Some(value) => memory.values().insert(value),
                None => memory.values(),
            },
        },
        Aggregator::Avg => MemoryView::Average {
            bins,
            present,
            average: merge_average(memory.average(), average_of(bin)),
        },
        Aggregator::CountDistinct => arbitrary(),
    }
}

/// Whether `bin` can be one of the live bins of `memory`: if it holds a
/// value, some live bin does, and for a `Min` or `Max` the value is among
/// those held; if it holds none, some live bin holds none.
pub open spec fn memory_holds(aggregator: Aggregator, memory: MemoryView, bin: Bin) -> bool {
    if holds_value(bin) {
        &&& memory.present() >= 1
        &&& (aggregator == Aggregator::Min || aggregator == Aggregator::Max) ==> match value_of(
            bin,
        ) {
            Some(value) => memory.values().contains(value),
            None => true,
        }
    } else {
        memory.present() < memory.bins()
    }
}

/// The memory after the live bin `bin` expired: `None` when it was the last
/// live bin; otherwise one bin fewer, and the bin's contribution subtracted
/// from the accumulator, which becomes absent when no live bin holds a
/// value any longer, or one occurrence of its value taken out of the
/// multiset of a `Min` or `Max`.
pub open spec fn memory_remove(aggregator: Aggregator, current: MemoryView, bin: Bin) -> Option<
    MemoryView,
>
    recommends
        aggregator.decomposable(),
        memory_holds(aggregator, current, bin),
{
    if current.bins() <= 1 {
        None
    } else {
        let bins = (current.bins() - 1) as nat;
        let present = if holds_value(bin) {
            (current.present() - 1) as nat
        } else {
            current.present()
        };
        Some(
            match aggregator {
                Aggregator::Count => MemoryView::Count {
                    bins,
                    count: current.count().wrapping_sub(count_of(bin)),
                },
                Aggregator::Sum => MemoryView::Sum {
                    bins,
                    present,
                    sum: match (current.sum(), value_of(bin)) {
                        (Some(sum), Some(value)) => if present == 0 {
                            None
                        } else {
                            Some(sum.wrapping_sub(value))
                        },
                        (sum, _) => sum,
                    },
                },
                Aggregator::Min | Aggregator::Max => MemoryView::Extremes {
                    bins,
                    values: match value_of(bin) {
                        Some(value) => current.values().remove(value),
                        None => current.values(),
                    },
                },
                Aggregator::Avg => MemoryView::Average {
                    bins,
                    present,
                    average: match (current.average(), average_of(bin)) {
                        (Some(average), Some(expiring)) => if present == 0 {
                            None
                        } else {
                            Some(
                                (
                                    average.0.wrapping_sub(expiring.0),
                                    average.1.wrapping_sub(expiring.1),
                                ),
                            )
                        },
                        (average, _) => average,
                    },
                },
                Aggregator::CountDistinct => arbitrary(),
            },
        )
    }
}

/// The value of a memory: the count, the sum or the quotient of the average
/// where present, the least value held for `Min` and the greatest for
/// `Max`; null where no live bin holds a value.
pub open spec fn memory_finalize(aggregator: Aggregator, memory: MemoryView) -> AggregateValue
    recommends
        aggregator.decomposable(),
{
    match aggregator {
        Aggregator::Count => AggregateValue::Integer(memory.count()),
        Aggregator::Sum => match memory.sum() {
            Some(sum) => AggregateValue::Integer(sum),
            None => AggregateValue::Null,
        },
        Aggregator::Min => match least(memory.values()) {
            Some(value) => AggregateValue::Integer(value),
            None => AggregateValue::Null,
        },
        Aggregator::Max => match greatest(memory.values()) {
            Some(value) => AggregateValue::Integer(value),
            None => AggregateValue::Null,
        },
        Aggregator::Avg => match memory.average() {
            Some((count, sum)) => AggregateValue::Ratio { sum, count },
            None => AggregateValue::Null,
        },
        Aggregator::CountDistinct => arbitrary(),
    }
}

impl View for Memory {
    type V = MemoryView;

    open spec fn view(&self) -> MemoryView {
        match self {
            Memory::Count { bins, count } => MemoryView::Count { bins: *bins as nat, count: *count },
            Memory::Sum { bins, present, sum } => MemoryView::Sum {
                bins: *bins as nat,
                present: *present as nat,
                sum: *sum,
            },
            Memory::Average { bins, present, average } => MemoryView::Average {
                bins: *bins as nat,
                present: *present as nat,
                average: *average,
            },
            Memory::Extremes { bins, values } => MemoryView::Extremes {
                bins: *bins as nat,
                values: values@,
            },
        }
    }
}

/// The model of an optional memory.
pub open spec fn memory_view(memory: Option<Memory>) -> Option<MemoryView> {
    match memory {
        Some(memory) => Some(memory@),
        None => None,
    }
}

/// The shape of the memory of `aggregator` over an input of the given
/// nullability, accumulating in `accumulator`.
pub open spec fn memory_type_of(aggregator: Aggregator, nullable: bool, accumulator: DataType)
    -> MemoryType
    recommends
        aggregator.decomposable(),
{
    match aggregator {
        Aggregator::Count => MemoryType::Count,
        Aggregator::Sum => if nullable {
            MemoryType::OptionalSum(accumulator)
        } else {
            MemoryType::Sum(accumulator)
        },
        Aggregator::Min | Aggregator::Max => if nullable {
            MemoryType::OptionalExtremes(accumulator)
        } else {
            MemoryType::Extremes(accumulator)
        },
        Aggregator::Avg => if nullable {
            MemoryType::OptionalAverage(accumulator)
        } else {
            MemoryType::Average(accumulator)
        },
        Aggregator::CountDistinct => arbitrary(),
    }
}

impl Memory {
    /// The number of live bins.
    pub fn bins(&self) -> (r: usize)
        ensures
            r == self@.bins(),
    {
        match self {
            Memory::Count { bins, .. } => *bins,
            Memory::Sum { bins, .. } => *bins,
            Memory::Average { bins, .. } => *bins,
            Memory::Extremes { bins, .. } => *bins,
        }
    }

    /// The number of live bins that hold a value.
    pub fn present(&self) -> (r: usize)
        ensures
            r == self@.present(),
    {
        match self {
            Memory::Count { bins, .. } => *bins,
            Memory::Sum { present, .. } => *present,
            Memory::Average { present, .. } => *present,
            Memory::Extremes { values, .. } => values.len(),
        }
    }

    /// Whether this memory is one of `aggregator` over an input of the
    /// given nullability.
    pub fn fits(&self, aggregator: Aggregator, nullable: bool) -> (r: bool)
        ensures
            r == memory_fits(aggregator, nullable, self@),
    {
        let bins = self.bins();
        let present = self.present();
        let well_formed = bins >= 1 && present <= bins && match self {
            Memory::Sum { sum, .. } => sum.is_some() == (present >= 1),
            Memory::Average { average, .. } => average.is_some() == (present >= 1),
            _ => true,
        };
        let right_variant = match (aggregator, self) {
            (Aggregator::Count, Memory::Count { .. }) => true,
            (Aggregator::Sum, Memory::Sum { .. }) => true,
            (Aggregator::Min, Memory::Extremes { .. }) => true,
            (Aggregator::Max, Memory::Extremes { .. }) => true,
            (Aggregator::Avg, Memory::Average { .. }) => true,
            _ => false,
        };
        well_formed && (nullable || present == bins) && right_variant
    }

    /// Whether `bin` can be one of the live bins of this memory.
    pub fn holds(&self, aggregator: Aggregator, bin: Bin) -> (r: bool)
        ensures
            r == memory_holds(aggregator, self@, bin),
    {
        let value = match bin {
            Bin::Count(_) => None,
            Bin::Value(value) => value,
            Bin::Average(_) => None,
        };
        let holds_value = match bin {
            Bin::Count(_) => true,
            Bin::Value(value) => value.is_some(),
            Bin::Average(average) => average.is_some(),
        };
        if holds_value {
            let among = match (aggregator, self, value) {
                (Aggregator::Min, Memory::Extremes { values, .. }, Some(value)) => values.count(
                    value,
                ) >= 1,
                (Aggregator::Max, Memory::Extremes { values, .. }, Some(value)) => values.count(
                    value,
                ) >= 1,
                (Aggregator::Min, _, Some(_)) => false,
                (Aggregator::Max, _, Some(_)) => false,
                _ => true,
            };
            self.present() >= 1 && among
        } else {
            self.present() < self.bins()
        }
    }
}

impl Clone for Memory {
    fn clone(&self) -> (r: Self)
        ensures
            r@ == self@,
    {
        match self {
            Memory::Count { bins, count } => Memory::Count { bins: *bins, count: *count },
            Memory::Sum { bins, present, sum } => Memory::Sum {
                bins: *bins,
                present: *present,
                sum: *sum,
            },
            Memory::Average { bins, present, average } => Memory::Average {
                bins: *bins,
                present: *present,
                average: *average,
            },
            Memory::Extremes { bins, values } => Memory::Extremes {
                bins: *bins,
                values: values.clone(),
            },
        }
    }
}


} // verus!
