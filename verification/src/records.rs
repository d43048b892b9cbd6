//! Record expressions: which record a projection builds, and where the
//! value of each of its fields comes from.

use crate::bins::AggregateValue;
use crate::expressions::{
    AggregationExpression, AggregationView, ColumnView, Expression, ExpressionView,
};
use crate::types::{StructDef, StructDefView, StructField, StructFieldView, TypeDefView};
use vstd::prelude::*;

verus! {

/// Where the value of a field comes from.
#[derive(Debug, PartialEq, Eq)]
pub enum FieldSource {
    /// A scalar expression, evaluated on the input row or on the group key.
    Computation(Expression),
    /// An aggregate over all rows of the group.
    Aggregation(AggregationExpression),
    /// An aggregate's value, already computed.
    Value(AggregateValue),
}

/// Mathematical model of a [`FieldSource`].
pub ghost enum FieldSourceView {
    Computation(ExpressionView),
    Aggregation(AggregationView),
    Value(AggregateValue),
}

impl View for FieldSource {
    type V = FieldSourceView;

    open spec fn view(&self) -> FieldSourceView {
        match self {
            FieldSource::Computation(expression) => FieldSourceView::Computation(expression@),
            FieldSource::Aggregation(aggregation) => FieldSourceView::Aggregation(aggregation@),
            FieldSource::Value(value) => FieldSourceView::Value(*value),
        }
    }
}

impl Clone for FieldSource {
    fn clone(&self) -> (r: Self)
        ensures
            r@ == self@,
    {
        match self {
            FieldSource::Computation(expression) => FieldSource::Computation(expression.clone()),
            FieldSource::Aggregation(aggregation) => FieldSource::Aggregation(
                aggregation.clone(),
            ),
            FieldSource::Value(value) => FieldSource::Value(*value),
        }
    }
}

/// One field of a record expression: the field and the source of its value.
#[derive(Debug, PartialEq, Eq)]
pub struct Assignment {
    pub field: StructField,
    pub value: FieldSource,
}

/// Mathematical model of an [`Assignment`].
pub ghost struct AssignmentView {
    pub field: StructFieldView,
    pub value: FieldSourceView,
}

impl View for Assignment {
    type V = AssignmentView;

    open spec fn view(&self) -> AssignmentView {
        AssignmentView { field: self.field@, value: self.value@ }
    }
}

impl Clone for Assignment {
    fn clone(&self) -> (r: Self)
        ensures
            r@ == self@,
    {
        Assignment { field: self.field.clone(), value: self.value.clone() }
    }
}

/// The models of a list of assignments, in order.
pub open spec fn assignments_view(assignments: Seq<Assignment>) -> Seq<AssignmentView> {
    Seq::new(assignments.len(), |i: int| assignments[i]@)
}

/// An expression that builds a record: the record's type and one assignment
/// for each field, in field order.
#[derive(Debug, PartialEq, Eq)]
pub struct StructExpression {
    pub output_type: StructDef,
    pub assignments: Vec<Assignment>,
}

/// Mathematical model of a [`StructExpression`].
pub ghost struct StructExpressionView {
    pub output_type: StructDefView,
    pub assignments: Seq<AssignmentView>,
}

impl StructExpressionView {
    /// Whether the assignments follow the record type: one for each field,
    /// in field order.
    pub open spec fn in_schema_order(self) -> bool {
        assigned_fields(self.assignments) == self.output_type.fields
    }
}

impl View for StructExpression {
    type V = StructExpressionView;

    open spec fn view(&self) -> StructExpressionView {
        StructExpressionView {
            output_type: self.output_type@,
            assignments: assignments_view(self.assignments@),
        }
    }
}

impl Clone for StructExpression {
    fn clone(&self) -> (r: Self)
        ensures
            r@ == self@,
    {
        let mut assignments: Vec<Assignment> = Vec::new();
        let mut i: usize = 0;
        while i < self.assignments.len()
            invariant
                i <= self.assignments.len(),
                assignments.len() == i,
                forall|j: int| 0 <= j < i ==> assignments[j]@ == self.assignments[j]@,
            decreases self.assignments.len() - i,
        {
            assignments.push(self.assignments[i].clone());
            i += 1;
        }
        let r = StructExpression { output_type: self.output_type.clone(), assignments };
        assert(r@.assignments =~= self@.assignments);
        r
    }
}

/// The field that an output column of the given type becomes: named by the
/// column's name, aliased by its relation.
pub open spec fn field_of(column: ColumnView, data_type: TypeDefView) -> StructFieldView {
    StructFieldView { name: column.name, alias: column.relation, data_type }
}

/// The fields of a sequence of assignments, in order.
pub open spec fn assigned_fields(assignments: Seq<AssignmentView>) -> Seq<StructFieldView> {
    Seq::new(assignments.len(), |i: int| assignments[i].field)
}

} // verus!
