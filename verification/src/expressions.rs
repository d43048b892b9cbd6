//! Columns, scalar expressions and aggregate function calls.

use crate::coercion::{avg_type, avg_type_of, sum_type, sum_type_of};
use crate::types::{clone_opt_string, opt_str_view, DataType, TypeDef, TypeDefView};
use vstd::prelude::*;

verus! {

/// A qualified field identifier: a name, optionally tagged with the relation
/// it comes from.
#[derive(Debug, PartialEq, Eq)]
pub struct Column {
    pub relation: Option<String>,
    pub name: String,
}

/// Mathematical model of a [`Column`].
pub ghost struct ColumnView {
    pub relation: Option<Seq<char>>,
    pub name: Seq<char>,
}

impl View for Column {
    type V = ColumnView;

    open spec fn view(&self) -> ColumnView {
        ColumnView { relation: opt_str_view(self.relation), name: self.name@ }
    }
}

impl Clone for Column {
    fn clone(&self) -> (r: Self)
        ensures
            r@ == self@,
    {
        Column { relation: clone_opt_string(&self.relation), name: self.name.clone() }
    }
}

impl Column {
    pub fn new(relation: Option<String>, name: String) -> (column: Self)
        ensures
            column.relation == relation,
            column.name == name,
    {
        Column { relation, name }
    }
}

/// A scalar expression over an input row. How it computes its value is not
/// this library's concern; it is known by its source text and by the type
/// of the value it yields.
#[derive(Debug, PartialEq, Eq)]
pub struct Expression {
    pub source: String,
    pub return_type: TypeDef,
}

/// Mathematical model of an [`Expression`].
pub ghost struct ExpressionView {
    pub source: Seq<char>,
    pub return_type: TypeDefView,
}

impl View for Expression {
    type V = ExpressionView;

    open spec fn view(&self) -> ExpressionView {
        ExpressionView { source: self.source@, return_type: self.return_type@ }
    }
}

impl Clone for Expression {
    fn clone(&self) -> (r: Self)
        ensures
            r@ == self@,
    {
        Expression { source: self.source.clone(), return_type: self.return_type.clone() }
    }
}

impl Expression {
    pub fn new(source: String, return_type: TypeDef) -> (expression: Self)
        ensures
            expression.source == source,
            expression.return_type == return_type,
    {
        Expression { source, return_type }
    }

    /// The type of the value this expression yields.
    pub fn return_type(&self) -> (r: TypeDef)
        ensures
            r@ == self@.return_type,
    {
        self.return_type.clone()
    }

    /// Whether this expression may yield null.
    pub fn nullable(&self) -> (r: bool)
        ensures
            r == self@.return_type.is_optional(),
    {
        self.return_type.is_optional()
    }
}

/// The aggregate functions.
#[derive(Clone, Copy, Debug, PartialEq, Eq, Structural)]
pub enum Aggregator {
    Count,
    Sum,
    Min,
    Max,
    Avg,
    CountDistinct,
}

impl Aggregator {
    /// Whether partial results of this aggregate can be combined: every
    /// aggregate but `CountDistinct`.
    pub open spec fn decomposable(self) -> bool {
        self != Aggregator::CountDistinct
    }

    /// Whether this aggregate accumulates a sum of its inputs.
    pub open spec fn sums(self) -> bool {
        self == Aggregator::Sum || self == Aggregator::Avg
    }
}

/// The type in which `aggregator` accumulates inputs of type `input`:
/// counts are 64-bit integers, sums and averages accumulate in the type of
/// the sum, and extrema keep the input type. `None` where the input type
/// has no sum, and for `CountDistinct`, which has no accumulator.
pub open spec fn accumulator_type(aggregator: Aggregator, input: DataType) -> Option<DataType> {
    match aggregator {
        Aggregator::Count => Some(DataType::Int64),
        Aggregator::Sum | Aggregator::Avg => sum_type_of(input),
        Aggregator::Min | Aggregator::Max => Some(input),
        Aggregator::CountDistinct => None,
    }
}

/// The type of the value `aggregator` produces over inputs of type `input`,
/// `None` where the input is a record or does not support the aggregate.
///
/// | aggregate | type | nullable |
/// |---|---|---|
/// | `Count`, `CountDistinct` | `Int64` | never |
/// | `Sum` | type of the sum | as the input |
/// | `Min`, `Max` | the input type | as the input |
/// | `Avg` | type of the average | as the input |
pub open spec fn aggregate_return_type(aggregator: Aggregator, input: TypeDefView) -> Option<
    TypeDefView,
> {
    match input {
        TypeDefView::StructDef(_, _) => None,
        TypeDefView::DataType(data_type, nullable) => match aggregator {
            Aggregator::Count | Aggregator::CountDistinct => Some(
                TypeDefView::DataType(DataType::Int64, false),
            ),
            Aggregator::Sum => match sum_type_of(data_type) {
                Some(sum) => Some(TypeDefView::DataType(sum, nullable)),
                None => None,
            },
            Aggregator::Min | Aggregator::Max => Some(input),
            Aggregator::Avg => match avg_type_of(data_type) {
                Some(avg) => Some(TypeDefView::DataType(avg, nullable)),
                None => None,
            },
        },
    }
}

/// Derives [`aggregate_return_type`].
pub fn derive_return_type(aggregator: Aggregator, input: &TypeDef) -> (r: Option<TypeDef>)
    ensures
        match r {
            Some(t) => aggregate_return_type(aggregator, input@) == Some(t@),
            None => aggregate_return_type(aggregator, input@) is None,
        },
{
    match input {
        TypeDef::StructDef(_, _) => None,
        TypeDef::DataType(data_type, nullable) => match aggregator {
            Aggregator::Count | Aggregator::CountDistinct => Some(
                TypeDef::DataType(DataType::Int64, false),
            ),
            Aggregator::Sum => match sum_type(*data_type) {
                Some(sum) => Some(TypeDef::DataType(sum, *nullable)),
                None => None,
            },
            Aggregator::Min | Aggregator::Max => Some(input.clone()),
            Aggregator::Avg => match avg_type(*data_type) {
                Some(avg) => Some(TypeDef::DataType(avg, *nullable)),
                None => None,
            },
        },
    }
}

/// An aggregate function applied to an input expression.
#[derive(Debug, PartialEq, Eq)]
pub struct AggregationExpression {
    pub producing_expression: Expression,
    pub aggregator: Aggregator,
}

/// Mathematical model of an [`AggregationExpression`].
pub ghost struct AggregationView {
    pub input: ExpressionView,
    pub aggregator: Aggregator,
}

impl AggregationView {
    /// Whether the input expression may yield null.
    pub open spec fn nullable(self) -> bool {
        self.input.return_type.is_optional()
    }

    /// The input expression is scalar and of a type the aggregate supports.
    pub open spec fn well_typed(self) -> bool {
        aggregate_return_type(self.aggregator, self.input.return_type) is Some
    }

    /// The type of the aggregate's value.
    pub open spec fn return_type(self) -> TypeDefView
        recommends
            self.well_typed(),
    {
        aggregate_return_type(self.aggregator, self.input.return_type)->0
    }
}

impl View for AggregationExpression {
    type V = AggregationView;

    open spec fn view(&self) -> AggregationView {
        AggregationView { input: self.producing_expression@, aggregator: self.aggregator }
    }
}

impl Clone for AggregationExpression {
    fn clone(&self) -> (r: Self)
        ensures
            r@ == self@,
    {
        AggregationExpression {
            producing_expression: self.producing_expression.clone(),
            aggregator: self.aggregator,
        }
    }
}

impl AggregationExpression {
    pub fn new(producing_expression: Expression, aggregator: Aggregator) -> (aggregation: Self)
        ensures
            aggregation.producing_expression == producing_expression,
            aggregation.aggregator == aggregator,
    {
        AggregationExpression { producing_expression, aggregator }
    }

    /// Whether the input expression is scalar and of a type the aggregate
    /// supports.
    pub fn is_well_typed(&self) -> (r: bool)
        ensures
            r == self@.well_typed(),
    {
        derive_return_type(self.aggregator, &self.producing_expression.return_type).is_some()
    }

    /// Whether this aggregate can be computed in two phases.
    pub fn allows_two_phase(&self) -> (r: bool)
        ensures
            r == self.aggregator.decomposable(),
    {
        match self.aggregator {
            Aggregator::CountDistinct => false,
            _ => true,
        }
    }

    /// The type of the aggregate's value.
    pub fn return_type(&self) -> (r: TypeDef)
        requires
            self@.well_typed(),
        ensures
            r@ == self@.return_type(),
    {
        match derive_return_type(self.aggregator, &self.producing_expression.return_type) {
            Some(t) => t,
            None => unreached(),
        }
    }
}

} // verus!
