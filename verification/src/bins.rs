//! Bins: the partial state of one aggregate over one batch of rows, and
//! what folding a row, combining two bins and finalizing a bin mean.
//!
//! Values are signed 64-bit integers; a null is `None`. Sums and counts wrap
//! around at the 64-bit boundary, so that combining is associative and
//! commutative on all inputs.

use crate::expressions::Aggregator;
use crate::types::DataType;
use vstd::prelude::*;

verus! {

/// The partial state of one aggregate.
#[derive(Clone, Copy, Debug, PartialEq, Eq)]
pub enum Bin {
    /// The number of rows counted so far.
    Count(i64),
    /// The running sum, minimum or maximum; `None` while no value was seen.
    Value(Option<i64>),
    /// The running `(count, sum)` of an average; `None` while no value was
    /// seen.
    Average(Option<(i64, i64)>),
}

/// The shape of an aggregate's bins as an executor that is typed by the
/// accumulator type `T` lays them out.
#[derive(Clone, Copy, Debug, PartialEq, Eq)]
pub enum BinType {
    /// A 64-bit count.
    Count,
    /// `T`: an accumulator that always holds a value.
    Accumulator(DataType),
    /// `Option<T>`: an accumulator that is absent until a value is seen.
    OptionalAccumulator(DataType),
    /// `(i64, T)`: a count and a sum.
    CountAndSum(DataType),
    /// `Option<(i64, T)>`: a count and a sum, absent until a value is seen.
    OptionalCountAndSum(DataType),
}

/// The value of an aggregate.
#[derive(Clone, Copy, Debug, PartialEq, Eq)]
pub enum AggregateValue {
    /// No value contributed.
    Null,
    Integer(i64),
    /// The quotient `sum / count` of an average, to be divided as floating
    /// point numbers.
    Ratio { sum: i64, count: i64 },
}

/// The shape of the bins of `aggregator` over an input of the given
/// nullability, accumulating in `accumulator`.
///
/// | aggregate | non-nullable input | nullable input |
/// |---|---|---|
/// | `Count` | count | count |
/// | `Sum`, `Min`, `Max` | `T` | `Option<T>` |
/// | `Avg` | `(i64, T)` | `Option<(i64, T)>` |
pub open spec fn bin_type_of(aggregator: Aggregator, nullable: bool, accumulator: DataType)
    -> BinType
    recommends
        aggregator.decomposable(),
{
    match aggregator {
        Aggregator::Count => BinType::Count,
        Aggregator::Sum | Aggregator::Min | Aggregator::Max => if nullable {
            BinType::OptionalAccumulator(accumulator)
        } else {
            BinType::Accumulator(accumulator)
        },
        Aggregator::Avg => if nullable {
            BinType::OptionalCountAndSum(accumulator)
        } else {
            BinType::CountAndSum(accumulator)
        },
        Aggregator::CountDistinct => arbitrary(),
    }
}

/// Whether `bin` is a bin of `aggregator` over an input of the given
/// nullability: it has the aggregate's variant, and over a non-nullable
/// input it is never absent.
pub open spec fn bin_fits(aggregator: Aggregator, nullable: bool, bin: Bin) -> bool {
    match aggregator {
        Aggregator::Count => bin is Count,
        Aggregator::Sum | Aggregator::Min | Aggregator::Max => bin matches Bin::Value(v)
            && (nullable || v is Some),
        Aggregator::Avg => bin matches Bin::Average(a) && (nullable || a is Some),
        Aggregator::CountDistinct => false,
    }
}

/// Whether `value` can be the value of an input of the given nullability.
pub open spec fn value_fits(nullable: bool, value: Option<i64>) -> bool {
    nullable || value is Some
}

/// The count held by a `Count` bin, zero for anything else.
pub open spec fn count_of(bin: Bin) -> i64 {
    match bin {
        Bin::Count(count) => count,
        _ => 0,
    }
}

/// The accumulator held by a `Value` bin, absent for anything else.
pub open spec fn value_of(bin: Bin) -> Option<i64> {
    match bin {
        Bin::Value(value) => value,
        _ => None,
    }
}

/// The `(count, sum)` held by an `Average` bin, absent for anything else.
pub open spec fn average_of(bin: Bin) -> Option<(i64, i64)> {
    match bin {
        Bin::Average(average) => average,
        _ => None,
    }
}

/// How two present accumulators merge: by wrapping addition for sums, and
/// to the lesser or the greater for `Min` and `Max`.
pub open spec fn merge(aggregator: Aggregator, a: i64, b: i64) -> i64 {
    match aggregator {
        Aggregator::Min => if a <= b {
            a
        } else {
            b
        },
        Aggregator::Max => if a >= b {
            a
        } else {
            b
        },
        _ => a.wrapping_add(b),
    }
}

/// Merges two optional accumulators: absent with absent is absent, a lone
/// present side is kept, and two present sides are merged by [`merge`].
pub open spec fn merge_optional(aggregator: Aggregator, a: Option<i64>, b: Option<i64>) -> Option<
    i64,
> {
    match (a, b) {
        (Some(x), Some(y)) => Some(merge(aggregator, x, y)),
        (Some(x), None) => Some(x),
        (None, Some(y)) => Some(y),
        (None, None) => None,
    }
}

/// Merges two optional `(count, sum)` pairs: absent with absent is absent, a
/// lone present side is kept, and two present sides are added component by
/// component.
pub open spec fn merge_average(a: Option<(i64, i64)>, b: Option<(i64, i64)>) -> Option<
    (i64, i64),
> {
    match (a, b) {
        (Some(x), Some(y)) => Some((x.0.wrapping_add(y.0), x.1.wrapping_add(y.1))),
        (Some(x), None) => Some(x),
        (None, Some(y)) => Some(y),
        (None, None) => None,
    }
}

/// The bin of a single row whose input evaluates to `value`.
///
/// A count counts the row unless its input is nullable and null; the other
/// aggregates hold the value, or are absent for a null.
pub open spec fn singleton(aggregator: Aggregator, nullable: bool, value: Option<i64>) -> Bin
    recommends
        aggregator.decomposable(),
{
    match aggregator {
        Aggregator::Count => Bin::Count(
            if nullable && value is None {
                0
            } else {
                1
            },
        ),
        Aggregator::Sum | Aggregator::Min | Aggregator::Max => Bin::Value(value),
        Aggregator::Avg => Bin::Average(
            match value {
                Some(v) => Some((1, v)),
                None => None,
            },
        ),
        Aggregator::CountDistinct => arbitrary(),
    }
}

/// The bin that stands for the rows of both `current` and `new`: counts
/// add up, sums, minima and maxima merge by [`merge_optional`], and averages
/// by [`merge_average`].
pub open spec fn combine(aggregator: Aggregator, current: Bin, new: Bin) -> Bin
    recommends
        aggregator.decomposable(),
{
    match aggregator {
        Aggregator::Count => Bin::Count(count_of(current).wrapping_add(count_of(new))),
        Aggregator::Sum | Aggregator::Min | Aggregator::Max => Bin::Value(
            merge_optional(aggregator, value_of(current), value_of(new)),
        ),
        Aggregator::Avg => Bin::Average(merge_average(average_of(current), average_of(new))),
        Aggregator::CountDistinct => arbitrary(),
    }
}

/// [`combine`] where the current bin may not exist yet, in which case the
/// new bin is the result.
pub open spec fn combine_into(aggregator: Aggregator, current: Option<Bin>, new: Bin) -> Bin {
    match current {
        Some(current) => combine(aggregator, current, new),
        None => new,
    }
}

/// The bin after one more row: the current bin combined with the row's own
/// bin. A null leaves the bin as it is, and the first value makes an absent
/// bin present.
pub open spec fn fold(
    aggregator: Aggregator,
    nullable: bool,
    current: Option<Bin>,
    value: Option<i64>,
) -> Bin {
    combine_into(aggregator, current, singleton(aggregator, nullable, value))
}

/// One step of [`fold_all`]: the bin so far, if any, and one more row.
pub open spec fn fold_step(aggregator: Aggregator, nullable: bool) -> spec_fn(
    Option<Bin>,
    Option<i64>,
) -> Option<Bin> {
    |bin: Option<Bin>, value: Option<i64>| Some(fold(aggregator, nullable, bin, value))
}

/// The bin of a batch of rows, folded in order; `None` for the empty batch.
pub open spec fn fold_all(aggregator: Aggregator, nullable: bool, values: Seq<Option<i64>>)
    -> Option<Bin>
{
    values.fold_left(None, fold_step(aggregator, nullable))
}

/// The bin in which no row has contributed a value.
pub open spec fn absent_bin(aggregator: Aggregator) -> Bin
    recommends
        aggregator.decomposable(),
{
    match aggregator {
        Aggregator::Count => Bin::Count(0),
        Aggregator::Sum | Aggregator::Min | Aggregator::Max => Bin::Value(None),
        Aggregator::Avg => Bin::Average(None),
        Aggregator::CountDistinct => arbitrary(),
    }
}

/// The bin of two batches, either of which may be empty.
pub open spec fn combine_all(aggregator: Aggregator, a: Option<Bin>, b: Option<Bin>) -> Option<
    Bin,
> {
    match b {
        Some(b) => Some(combine_into(aggregator, a, b)),
        None => a,
    }
}

/// The value of a bin: a count or a present accumulator as it is, the
/// quotient of a present average, and null for an absent bin.
pub open spec fn finalize(bin: Bin) -> AggregateValue {
    match bin {
        Bin::Count(count) => AggregateValue::Integer(count),
        Bin::Value(Some(value)) => AggregateValue::Integer(value),
        Bin::Value(None) => AggregateValue::Null,
        Bin::Average(Some((count, sum))) => AggregateValue::Ratio { sum, count },
        Bin::Average(None) => AggregateValue::Null,
    }
}

/// The value of a batch's bin, null for the empty batch.
pub open spec fn finalize_all(bin: Option<Bin>) -> AggregateValue {
    match bin {
        Some(bin) => finalize(bin),
        None => AggregateValue::Null,
    }
}

impl Bin {
    /// Whether this bin is one of `aggregator` over an input of the given
    /// nullability.
    pub fn fits(&self, aggregator: Aggregator, nullable: bool) -> (r: bool)
        ensures
            r == bin_fits(aggregator, nullable, *self),
    {
        match aggregator {
            Aggregator::Count => match self {
                Bin::Count(_) => true,
                _ => false,
            },
            Aggregator::Sum | Aggregator::Min | Aggregator::Max => match self {
                Bin::Value(v) => nullable || v.is_some(),
                _ => false,
            },
            Aggregator::Avg => match self {
                Bin::Average(a) => nullable || a.is_some(),
                _ => false,
            },
            Aggregator::CountDistinct => false,
        }
    }
}

} // verus!
