//! One aggregate of a two-phase aggregation: the types of its bins, of its
//! memory and of its value, and the operations on bins and memory.

use crate::bins::{
    bin_fits, bin_type_of, combine, finalize, fold, value_fits, AggregateValue, Bin, BinType,
};
use crate::coercion::sum_type;
use crate::expressions::{
    accumulator_type, aggregate_return_type, derive_return_type, AggregationExpression,
    Aggregator, Expression, ExpressionView,
};
use crate::memory::{
    memory_add, memory_finalize, memory_fits, memory_holds, memory_remove, memory_type_of,
    memory_view, Memory, MemoryType,
};
use crate::multiset::OrderedMultiset;
use crate::types::{DataType, TypeDef, TypeDefView};
use vstd::prelude::*;

verus! {

/// One aggregate of a two-phase aggregation: its input expression and its
/// aggregate function.
#[derive(Debug, PartialEq, Eq)]
pub struct TwoPhaseAggregation {
    pub incoming_expression: Expression,
    pub aggregator: Aggregator,
}

/// Mathematical model of a [`TwoPhaseAggregation`].
pub ghost struct TwoPhaseAggregationView {
    pub input: ExpressionView,
    pub aggregator: Aggregator,
}

impl TwoPhaseAggregationView {
    /// Whether the input expression may yield null.
    pub open spec fn nullable(self) -> bool {
        self.input.return_type.is_optional()
    }

    /// The type in which the aggregate accumulates, where it has one.
    pub open spec fn accumulator(self) -> Option<DataType> {
        match self.input.return_type {
            TypeDefView::StructDef(_, _) => None,
            TypeDefView::DataType(data_type, _) => accumulator_type(self.aggregator, data_type),
        }
    }

    /// The aggregate can be computed in two phases, its input is scalar, and
    /// the types of its accumulator and of its value can be derived.
    pub open spec fn wf(self) -> bool {
        &&& self.aggregator.decomposable()
        &&& self.accumulator() is Some
        &&& aggregate_return_type(self.aggregator, self.input.return_type) is Some
    }

    /// The shape of the aggregate's bins.
    pub open spec fn bin_type(self) -> BinType
        recommends
            self.wf(),
    {
        bin_type_of(self.aggregator, self.nullable(), self.accumulator()->0)
    }

    /// The type of the aggregate's value.
    pub open spec fn return_type(self) -> TypeDefView
        recommends
            self.wf(),
    {
        aggregate_return_type(self.aggregator, self.input.return_type)->0
    }

    /// Whether `bin` is a bin of this aggregate.
    pub open spec fn fits(self, bin: Bin) -> bool {
        bin_fits(self.aggregator, self.nullable(), bin)
    }
}

impl View for TwoPhaseAggregation {
    type V = TwoPhaseAggregationView;

    open spec fn view(&self) -> TwoPhaseAggregationView {
        TwoPhaseAggregationView {
            input: self.incoming_expression@,
            aggregator: self.aggregator,
        }
    }
}

impl Clone for TwoPhaseAggregation {
    fn clone(&self) -> (r: Self)
        ensures
            r@ == self@,
    {
        TwoPhaseAggregation {
            incoming_expression: self.incoming_expression.clone(),
            aggregator: self.aggregator,
        }
    }
}

/// Why an aggregation cannot be computed in two phases.
#[derive(Clone, Copy, Debug, PartialEq, Eq)]
pub enum AggregateError {
    /// The aggregation uses this aggregate function, whose partial results
    /// cannot be combined.
    UnsupportedAggregator(Aggregator),
}

impl TwoPhaseAggregation {
    /// The two-phase form of `aggregation`. It exists unless the aggregate
    /// is a `CountDistinct`, which is reported as unsupported.
    pub fn try_from(aggregation: AggregationExpression) -> (r: Result<Self, AggregateError>)
        ensures
            match r {
                Ok(two_phase) => {
                    &&& aggregation.aggregator.decomposable()
                    &&& two_phase.incoming_expression == aggregation.producing_expression
                    &&& two_phase.aggregator == aggregation.aggregator
                },
                Err(error) => {
                    &&& !aggregation.aggregator.decomposable()
                    &&& error == AggregateError::UnsupportedAggregator(aggregation.aggregator)
                },
            },
    {
        if aggregation.allows_two_phase() {
            Ok(
                Self {
                    incoming_expression: aggregation.producing_expression,
                    aggregator: aggregation.aggregator,
                },
            )
        } else {
            Err(AggregateError::UnsupportedAggregator(aggregation.aggregator))
        }
    }

    /// Whether this aggregate is well formed: see
    /// [`TwoPhaseAggregationView::wf`].
    pub fn is_well_formed(&self) -> (r: bool)
        ensures
            r == self@.wf(),
    {
        let supported = match self.aggregator {
            Aggregator::CountDistinct => false,
            _ => true,
        };
        supported && self.accumulator().is_some() && derive_return_type(
            self.aggregator,
            &self.incoming_expression.return_type,
        ).is_some()
    }

    fn accumulator(&self) -> (r: Option<DataType>)
        ensures
            r == self@.accumulator(),
    {
        match &self.incoming_expression.return_type {
            TypeDef::StructDef(_, _) => None,
            TypeDef::DataType(data_type, _) => match self.aggregator {
                Aggregator::Count => Some(DataType::Int64),
                Aggregator::Sum | Aggregator::Avg => sum_type(*data_type),
                Aggregator::Min | Aggregator::Max => Some(*data_type),
                Aggregator::CountDistinct => None,
            },
        }
    }

    /// The type in which this aggregate accumulates.
    pub fn aggregate_type(&self) -> (r: DataType)
        requires
            self@.wf(),
        ensures
            Some(r) == self@.accumulator(),
    {
        match self.accumulator() {
            Some(data_type) => data_type,
            None => unreached(),
        }
    }

    /// The accumulator type as a non-nullable scalar type.
    pub fn aggregate_type_def(&self) -> (r: TypeDef)
        requires
            self@.wf(),
        ensures
            r@ == TypeDefView::DataType(self@.accumulator()->0, false),
    {
        TypeDef::DataType(self.aggregate_type(), false)
    }

    /// The shape of this aggregate's bins.
    pub fn bin_type(&self) -> (r: BinType)
        requires
            self@.wf(),
        ensures
            r == self@.bin_type(),
    {
        let input_nullable = self.incoming_expression.nullable();
        let aggregate_type = self.aggregate_type();
        match (self.aggregator, input_nullable) {
            (Aggregator::Count, _) => BinType::Count,
            (Aggregator::Sum, true) | (Aggregator::Min, true) | (Aggregator::Max, true) => {
                BinType::OptionalAccumulator(aggregate_type)
            },
            (Aggregator::Sum, false) | (Aggregator::Min, false) | (Aggregator::Max, false) => {
                BinType::Accumulator(aggregate_type)
            },
            (Aggregator::Avg, true) => BinType::OptionalCountAndSum(aggregate_type),
            (Aggregator::Avg, false) => BinType::CountAndSum(aggregate_type),
            (Aggregator::CountDistinct, _) => unreached(),
        }
    }

    /// Combines two bins of this aggregate into the bin of their rows
    /// together.
    pub fn combine_bin_syn_expr(&self, current_bin: Bin, new_bin: Bin) -> (bin: Bin)
        requires
            self@.wf(),
            self@.fits(current_bin),
            self@.fits(new_bin),
        ensures
            bin == combine(self.aggregator, current_bin, new_bin),
            self@.fits(bin),
    {
        match (self.aggregator, current_bin, new_bin) {
            (Aggregator::Count, Bin::Count(current), Bin::Count(new)) => Bin::Count(
                current.wrapping_add(new),
            ),
            (Aggregator::Sum, Bin::Value(current), Bin::Value(new)) => Bin::Value(
                match (current, new) {
                    (Some(value), Some(addition)) => Some(value.wrapping_add(addition)),
                    (Some(value), None) => Some(value),
                    (None, Some(addition)) => Some(addition),
                    (None, None) => None,
                },
            ),
            (Aggregator::Min, Bin::Value(current), Bin::Value(new)) => Bin::Value(
                match (current, new) {
                    (Some(value), Some(new_value)) => Some(
                        if value <= new_value {
                            value
                        } else {
                            new_value
                        },
                    ),
                    (Some(value), None) => Some(value),
                    (None, Some(new_value)) => Some(new_value),
                    (None, None) => None,
                },
            ),
            (Aggregator::Max, Bin::Value(current), Bin::Value(new)) => Bin::Value(
                match (current, new) {
                    (Some(value), Some(new_value)) => Some(
                        if value >= new_value {
                            value
                        } else {
                            new_value
                        },
                    ),
                    (Some(value), None) => Some(value),
                    (None, Some(new_value)) => Some(new_value),
                    (None, None) => None,
                },
            ),
            (Aggregator::Avg, Bin::Average(current), Bin::Average(new)) => Bin::Average(
                match (current, new) {
                    (Some((current_count, current_sum)), Some((new_count, new_sum))) => Some(
                        (current_count.wrapping_add(new_count), current_sum.wrapping_add(new_sum)),
                    ),
                    (Some((count, sum)), None) => Some((count, sum)),
                    (None, Some((count, sum))) => Some((count, sum)),
                    (None, None) => None,
                },
            ),
            _ => unreached(),
        }
    }

    /// Folds one row into a bin of this aggregate. `current_bin` is the bin
    /// so far, `None` before the first row, and `value` is what the input
    /// expression evaluates to on the row, `None` for null.
    pub fn bin_syn_expr(&self, current_bin: Option<Bin>, value: Option<i64>) -> (bin: Bin)
        requires
            self@.wf(),
            current_bin matches Some(current) ==> self@.fits(current),
            value_fits(self@.nullable(), value),
        ensures
            bin == fold(self.aggregator, self@.nullable(), current_bin, value),
            self@.fits(bin),
    {
        let input_nullable = self.incoming_expression.nullable();
        match self.aggregator {
            Aggregator::Count => {
                let count = match current_bin {
                    Some(Bin::Count(count)) => count,
                    Some(_) => unreached(),
                    None => 0,
                };
                let addition: i64 = if input_nullable && value.is_none() {
                    0
                } else {
                    1
                };
                Bin::Count(count.wrapping_add(addition))
            },
            Aggregator::Sum | Aggregator::Min | Aggregator::Max => {
                let row = Bin::Value(value);
                match current_bin {
                    Some(current) => self.combine_bin_syn_expr(current, row),
                    None => row,
                }
            },
            Aggregator::Avg => {
                let row = Bin::Average(
                    match value {
                        Some(value) => Some((1, value)),
                        None => None,
                    },
                );
                match current_bin {
                    Some(current) => self.combine_bin_syn_expr(current, row),
                    None => row,
                }
            },
            Aggregator::CountDistinct => unreached(),
        }
    }

    /// The value of a bin of this aggregate: what a tumbling window emits.
    pub fn bin_aggregating_expression(&self, arg: &Bin) -> (value: AggregateValue)
        requires
            self@.wf(),
            self@.fits(*arg),
        ensures
            value == finalize(*arg),
    {
        match arg {
            Bin::Count(count) => AggregateValue::Integer(*count),
            Bin::Value(Some(value)) => AggregateValue::Integer(*value),
            Bin::Value(None) => AggregateValue::Null,
            Bin::Average(Some((count, sum))) => AggregateValue::Ratio { sum: *sum, count: *count },
            Bin::Average(None) => AggregateValue::Null,
        }
    }

    /// The shape of this aggregate's memory.
    pub fn mem_type(&self) -> (r: MemoryType)
        requires
            self@.wf(),
        ensures
            r == memory_type_of(self.aggregator, self@.nullable(), self@.accumulator()->0),
    {
        let input_nullable = self.incoming_expression.nullable();
        let expr_type = self.aggregate_type();
        match (self.aggregator, input_nullable) {
            (Aggregator::Count, _) => MemoryType::Count,
            (Aggregator::Sum, true) => MemoryType::OptionalSum(expr_type),
            (Aggregator::Min, true) | (Aggregator::Max, true) => MemoryType::OptionalExtremes(
                expr_type,
            ),
            (Aggregator::Sum, false) => MemoryType::Sum(expr_type),
            (Aggregator::Min, false) | (Aggregator::Max, false) => MemoryType::Extremes(
                expr_type,
            ),
            (Aggregator::Avg, true) => MemoryType::OptionalAverage(expr_type),
            (Aggregator::Avg, false) => MemoryType::Average(expr_type),
            (Aggregator::CountDistinct, _) => unreached(),
        }
    }

    /// Whether `memory` is a memory of this aggregate.
    pub open spec fn holds(&self, memory: Memory) -> bool {
        memory_fits(self.aggregator, self@.nullable(), memory@)
    }

    /// Makes `bin_value` a live bin of the memory; `current` is `None`
    /// while no bin is live.
    pub fn memory_add_syn_expr(&self, current: Option<Memory>, bin_value: Bin) -> (memory: Memory)
        requires
            self@.wf(),
            self@.fits(bin_value),
            current matches Some(m) ==> self.holds(m) && m@.bins() < usize::MAX,
        ensures
            memory@ == memory_add(self.aggregator, memory_view(current), bin_value),
            self.holds(memory),
    {
        match (self.aggregator, bin_value) {
            (Aggregator::Count, Bin::Count(new)) => match current {
                Some(Memory::Count { bins, count }) => Memory::Count {
                    bins: bins + 1,
                    count: count.wrapping_add(new),
                },
                Some(_) => unreached(),
                None => Memory::Count { bins: 1, count: new },
            },
            (Aggregator::Sum, Bin::Value(new)) => {
                let (bins, present, sum) = match current {
                    Some(Memory::Sum { bins, present, sum }) => (bins, present, sum),
                    Some(_) => unreached(),
                    None => (0, 0, None),
                };
                match (sum, new) {
                    (Some(value), Some(addition)) => Memory::Sum {
                        bins: bins + 1,
                        present: present + 1,
                        sum: Some(value.wrapping_add(addition)),
                    },
                    (Some(value), None) => Memory::Sum { bins: bins + 1, present, sum: Some(value) },
                    (None, Some(addition)) => Memory::Sum {
                        bins: bins + 1,
                        present: present + 1,
                        sum: Some(addition),
                    },
                    (None, None) => Memory::Sum { bins: bins + 1, present, sum: None },
                }
            },
            (Aggregator::Min, Bin::Value(new)) | (Aggregator::Max, Bin::Value(new)) => {
                let (bins, values) = match current {
                    Some(Memory::Extremes { bins, values }) => (bins, values),
                    Some(_) => unreached(),
                    None => (0, OrderedMultiset::new()),
                };
                let values = match new {
                    Some(value) => values.insert(value),
                    None => values,
                };
                Memory::Extremes { bins: bins + 1, values }
            },
            (Aggregator::Avg, Bin::Average(new)) => {
                let (bins, present, average) = match current {
                    Some(Memory::Average { bins, present, average }) => (bins, present, average),
                    Some(_) => unreached(),
                    None => (0, 0, None),
                };
                match (average, new) {
                    (Some((count, sum)), Some((new_count, new_sum))) => Memory::Average {
                        bins: bins + 1,
                        present: present + 1,
                        average: Some((count.wrapping_add(new_count), sum.wrapping_add(new_sum))),
                    },
                    (Some(pair), None) => Memory::Average {
                        bins: bins + 1,
                        present,
                        average: Some(pair),
                    },
                    (None, Some(pair)) => Memory::Average {
                        bins: bins + 1,
                        present: present + 1,
                        average: Some(pair),
                    },
                    (None, None) => Memory::Average { bins: bins + 1, present, average: None },
                }
            },
            _ => unreached(),
        }
    }

    /// Takes the expiring live bin `bin_value` out of the memory; `None`
    /// when it was the last live bin.
    pub fn memory_remove_syn_expr(&self, current: Memory, bin_value: Bin) -> (memory: Option<
        Memory,
    >)
        requires
            self@.wf(),
            self@.fits(bin_value),
            self.holds(current),
            memory_holds(self.aggregator, current@, bin_value),
        ensures
            memory_view(memory) == memory_remove(self.aggregator, current@, bin_value),
            memory matches Some(m) ==> self.holds(m),
    {
        match (self.aggregator, current, bin_value) {
            (Aggregator::Count, Memory::Count { bins, count }, Bin::Count(expiring)) => {
                if bins == 1 {
                    None
                } else {
                    Some(Memory::Count { bins: bins - 1, count: count.wrapping_sub(expiring) })
                }
            },
            (Aggregator::Sum, Memory::Sum { bins, present, sum }, Bin::Value(expiring)) => {
                if bins == 1 {
                    None
                } else {
                    match (sum, expiring) {
                        (Some(sum), Some(value)) => Some(
                            Memory::Sum {
                                bins: bins - 1,
                                present: present - 1,
                                sum: if present == 1 {
                                    None
                                } else {
                                    Some(sum.wrapping_sub(value))
                                },
                            },
                        ),
                        (sum, _) => Some(Memory::Sum { bins: bins - 1, present, sum }),
                    }
                }
            },
            (Aggregator::Min, Memory::Extremes { bins, values }, Bin::Value(expiring))
            | (Aggregator::Max, Memory::Extremes { bins, values }, Bin::Value(expiring)) => {
                if bins == 1 {
                    None
                } else {
                    let values = match expiring {
                        Some(value) => values.remove(value),
                        None => values,
                    };
                    Some(Memory::Extremes { bins: bins - 1, values })
                }
            },
            (
                Aggregator::Avg,
                Memory::Average { bins, present, average },
                Bin::Average(expiring),
            ) => {
                if bins == 1 {
                    None
                } else {
                    match (average, expiring) {
                        (Some((count, sum)), Some((expiring_count, expiring_sum))) => Some(
                            Memory::Average {
                                bins: bins - 1,
                                present: present - 1,
                                average: if present == 1 {
                                    None
                                } else {
                                    Some(
                                        (
                                            count.wrapping_sub(expiring_count),
                                            sum.wrapping_sub(expiring_sum),
                                        ),
                                    )
                                },
                            },
                        ),
                        (average, _) => Some(Memory::Average { bins: bins - 1, present, average }),
                    }
                }
            },
            _ => unreached(),
        }
    }

    /// The value of a memory of this aggregate: what a sliding window
    /// emits.
    pub fn to_aggregating_syn_expression(&self, arg: &Memory) -> (value: AggregateValue)
        requires
            self@.wf(),
            self.holds(*arg),
        ensures
            value == memory_finalize(self.aggregator, arg@),
    {
        match (self.aggregator, arg) {
            (Aggregator::Count, Memory::Count { count, .. }) => AggregateValue::Integer(*count),
            (Aggregator::Sum, Memory::Sum { sum, .. }) => match sum {
                Some(sum) => AggregateValue::Integer(*sum),
                None => AggregateValue::Null,
            },
            (Aggregator::Min, Memory::Extremes { values, .. }) => match values.min() {
                Some(value) => AggregateValue::Integer(value),
                None => AggregateValue::Null,
            },
            (Aggregator::Max, Memory::Extremes { values, .. }) => match values.max() {
                Some(value) => AggregateValue::Integer(value),
                None => AggregateValue::Null,
            },
            (Aggregator::Avg, Memory::Average { average, .. }) => match average {
                Some((count, sum)) => AggregateValue::Ratio { sum: *sum, count: *count },
                None => AggregateValue::Null,
            },
            _ => unreached(),
        }
    }

    /// The type of this aggregate's value.
    pub fn return_type(&self) -> (r: TypeDef)
        requires
            self@.wf(),
        ensures
            r@ == self@.return_type(),
    {
        match derive_return_type(self.aggregator, &self.incoming_expression.return_type) {
            Some(t) => t,
            None => unreached(),
        }
    }
}

} // verus!
