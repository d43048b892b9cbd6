//! Projections over rows and aggregations over groups: the schema of what
//! they produce, the expression that builds each output record, and
//! whether an aggregation can be computed in two phases.

pub use crate::two_phase::TwoPhaseAggregation;
pub use crate::two_phase_projection::TwoPhaseAggregateProjection;

use crate::expressions::{
    AggregationExpression, AggregationView, Column, ColumnView, Expression, ExpressionView,
};
use crate::records::{
    assigned_fields, assignments_view, field_of, Assignment, AssignmentView, FieldSource,
    FieldSourceView, StructExpression,
};
use crate::types::{
    fields_view, lemma_struct_def_view, window_type_def, window_type_view, Format, StructDef,
    StructField, StructFieldView, TypeDef, TypeDefView,
};
use vstd::prelude::*;

verus! {

/// A row-to-row mapping: output columns, and the expression that computes
/// each of them.
#[derive(Debug, PartialEq, Eq)]
pub struct Projection {
    pub field_names: Vec<Column>,
    pub field_computations: Vec<Expression>,
    pub format: Option<Format>,
}

/// Mathematical model of a [`Projection`].
pub ghost struct ProjectionView {
    pub field_names: Seq<ColumnView>,
    pub field_computations: Seq<ExpressionView>,
    pub format: Option<Format>,
}

impl ProjectionView {
    /// Every computation has a column to go to.
    pub open spec fn wf(self) -> bool {
        self.field_computations.len() <= self.field_names.len()
    }

    /// The output columns with their computations, in order.
    pub open spec fn pairs(self) -> Seq<(ColumnView, ExpressionView)> {
        Seq::new(
            self.field_computations.len(),
            |i: int| (self.field_names[i], self.field_computations[i]),
        )
    }

    /// How many fields a prefix of at most `terms` fields has.
    pub open spec fn prefix_len(self, terms: nat) -> nat {
        if terms < self.field_computations.len() {
            terms
        } else {
            self.field_computations.len()
        }
    }

    /// The first `terms` output fields, or all of them if there are fewer:
    /// each named after its column and typed by its computation.
    pub open spec fn fields(self, terms: nat) -> Seq<StructFieldView> {
        Seq::new(
            self.prefix_len(terms),
            |i: int| field_of(self.field_names[i], self.field_computations[i].return_type),
        )
    }

    /// The first `terms` assignments, or all of them if there are fewer:
    /// each output field takes the value of its computation.
    pub open spec fn assignments(self, terms: nat) -> Seq<AssignmentView> {
        Seq::new(
            self.prefix_len(terms),
            |i: int|
                AssignmentView {
                    field: field_of(self.field_names[i], self.field_computations[i].return_type),
                    value: FieldSourceView::Computation(self.field_computations[i]),
                },
        )
    }
}

/// Whether an output column is kept when window metadata is stripped: its
/// computation does not yield the window marker type.
pub open spec fn keeps(pair: (ColumnView, ExpressionView)) -> bool {
    pair.1.return_type != window_type_view()
}

impl View for Projection {
    type V = ProjectionView;

    open spec fn view(&self) -> ProjectionView {
        ProjectionView {
            field_names: Seq::new(self.field_names@.len(), |i: int| self.field_names@[i]@),
            field_computations: Seq::new(
                self.field_computations@.len(),
                |i: int| self.field_computations@[i]@,
            ),
            format: self.format,
        }
    }
}

impl Clone for Projection {
    fn clone(&self) -> (r: Self)
        ensures
            r@ == self@,
    {
        let mut field_names: Vec<Column> = Vec::new();
        let mut i: usize = 0;
        while i < self.field_names.len()
            invariant
                i <= self.field_names.len(),
                field_names.len() == i,
                forall|j: int| 0 <= j < i ==> field_names[j]@ == self.field_names[j]@,
            decreases self.field_names.len() - i,
        {
            field_names.push(self.field_names[i].clone());
            i += 1;
        }
        let mut field_computations: Vec<Expression> = Vec::new();
        let mut i: usize = 0;
        while i < self.field_computations.len()
            invariant
                i <= self.field_computations.len(),
                field_computations.len() == i,
                forall|j: int|
                    0 <= j < i ==> field_computations[j]@ == self.field_computations[j]@,
            decreases self.field_computations.len() - i,
        {
            field_computations.push(self.field_computations[i].clone());
            i += 1;
        }
        let r = Self { field_names, field_computations, format: self.format };
        assert(r@.field_names =~= self@.field_names);
        assert(r@.field_computations =~= self@.field_computations);
        r
    }
}

impl Projection {
    /// Whether every computation has a column to go to.
    pub fn is_well_formed(&self) -> (r: bool)
        ensures
            r == self@.wf(),
    {
        self.field_computations.len() <= self.field_names.len()
    }

    /// A projection without a format.
    pub fn new(field_names: Vec<Column>, field_computations: Vec<Expression>) -> (r: Self)
        ensures
            r.field_names == field_names,
            r.field_computations == field_computations,
            r.format is None,
    {
        Self { field_names, field_computations, format: None }
    }

    /// The output field at position `i`.
    fn field(&self, i: usize) -> (r: StructField)
        requires
            self@.wf(),
            i < self.field_computations.len(),
        ensures
            r@ == field_of(self@.field_names[i as int], self@.field_computations[i as int].return_type),
    {
        let field_name = self.field_names[i].clone();
        let field_type = self.field_computations[i].return_type();
        StructField::new(field_name.name, field_name.relation, field_type)
    }

    /// The first `terms` output fields, or all of them if there are fewer.
    fn fields(&self, terms: usize) -> (r: Vec<StructField>)
        requires
            self@.wf(),
        ensures
            fields_view(r@) == self@.fields(terms as nat),
    {
        let n = if terms < self.field_computations.len() {
            terms
        } else {
            self.field_computations.len()
        };
        let mut fields: Vec<StructField> = Vec::new();
        let mut i: usize = 0;
        while i < n
            invariant
                self@.wf(),
                i <= n,
                n == self@.prefix_len(terms as nat),
                fields.len() == i,
                forall|j: int| 0 <= j < i ==> fields[j]@ == self@.fields(terms as nat)[j],
            decreases n - i,
        {
            fields.push(self.field(i));
            i += 1;
        }
        assert(fields_view(fields@) =~= self@.fields(terms as nat));
        fields
    }

    /// The type of the output record: one field for each computation, in
    /// order, with this projection's format.
    pub fn output_struct(&self) -> (r: StructDef)
        requires
            self@.wf(),
        ensures
            r@.name is None,
            r@.fields == self@.fields(self@.field_computations.len()),
            r@.format == self.format,
    {
        let fields = self.fields(self.field_computations.len());
        let r = StructDef::new(None, fields, self.format);
        proof {
            lemma_struct_def_view(r);
        }
        r
    }

    /// The first `terms` assignments, or all of them if there are fewer.
    fn assignments(&self, terms: usize) -> (r: Vec<Assignment>)
        requires
            self@.wf(),
        ensures
            r@.len() == self@.prefix_len(terms as nat),
            forall|j: int| 0 <= j < r@.len() ==> r@[j]@ == self@.assignments(terms as nat)[j],
    {
        let n = if terms < self.field_computations.len() {
            terms
        } else {
            self.field_computations.len()
        };
        let mut assignments: Vec<Assignment> = Vec::new();
        let mut i: usize = 0;
        while i < n
            invariant
                self@.wf(),
                i <= n,
                n == self@.prefix_len(terms as nat),
                assignments.len() == i,
                forall|j: int|
                    0 <= j < i ==> assignments[j]@ == self@.assignments(terms as nat)[j],
            decreases n - i,
        {
            let field = self.field(i);
            let expr = self.field_computations[i].clone();
            assignments.push(Assignment { field, value: FieldSource::Computation(expr) });
            i += 1;
        }
        assignments
    }

    /// The expression that builds the first `terms` fields of the output
    /// record, or all of them if there are fewer: its type is
    /// [`Self::truncated_return_type`], and each field takes the value of
    /// its computation.
    pub fn to_truncated_syn_expression(&self, terms: usize) -> (r: StructExpression)
        requires
            self@.wf(),
        ensures
            r@.output_type.name is None,
            r@.output_type.fields == self@.fields(terms as nat),
            r@.output_type.format is None,
            r@.assignments == self@.assignments(terms as nat),
            r@.in_schema_order(),
    {
        let assignments = self.assignments(terms);
        let output_type = self.truncated_return_type(terms);
        let r = StructExpression { output_type, assignments };
        assert(r@.assignments =~= self@.assignments(terms as nat));
        assert(assigned_fields(r@.assignments) =~= r@.output_type.fields);
        r
    }

    /// The expression that builds the output record: its type is
    /// [`Self::output_struct`], and each field takes the value of its
    /// computation.
    pub fn to_syn_expression(&self) -> (r: StructExpression)
        requires
            self@.wf(),
        ensures
            r@.output_type.name is None,
            r@.output_type.fields == self@.fields(self@.field_computations.len()),
            r@.output_type.format == self.format,
            r@.assignments == self@.assignments(self@.field_computations.len()),
            r@.in_schema_order(),
    {
        let assignments = self.assignments(self.field_computations.len());
        let output_type = self.output_struct();
        let r = StructExpression { output_type, assignments };
        assert(r@.assignments =~= self@.assignments(self@.field_computations.len()));
        assert(assigned_fields(r@.assignments) =~= r@.output_type.fields);
        r
    }

    /// The type of the output record as a non-nullable type.
    pub fn return_type(&self) -> (r: TypeDef)
        requires
            self@.wf(),
        ensures
            r@ matches TypeDefView::StructDef(def, nullable) && !nullable && def.name is None
                && def.fields == self@.fields(self@.field_computations.len()) && def.format
                == self.format,
    {
        TypeDef::StructDef(self.output_struct(), false)
    }

    /// This projection without the columns whose computation yields the
    /// window marker type; the other columns keep their order.
    pub fn without_window(self) -> (r: Self)
        requires
            self@.wf(),
        ensures
            r@.wf(),
            r@.field_names.len() == r@.field_computations.len(),
            r@.pairs() == self@.pairs().filter(|pair: (ColumnView, ExpressionView)| keeps(pair)),
            r.format == self.format,
    {
        let window = window_type_def();
        let mut field_names: Vec<Column> = Vec::new();
        let mut field_computations: Vec<Expression> = Vec::new();
        let ghost kept = |pair: (ColumnView, ExpressionView)| keeps(pair);
        let ghost mut pairs: Seq<(ColumnView, ExpressionView)> = Seq::empty();
        let mut i: usize = 0;
        proof {
            reveal(Seq::filter);
            assert(self@.pairs().take(0) =~= Seq::empty());
        }
        while i < self.field_computations.len()
            invariant
                self@.wf(),
                i <= self.field_computations.len(),
                window@ == window_type_view(),
                kept == (|pair: (ColumnView, ExpressionView)| keeps(pair)),
                field_names.len() == field_computations.len(),
                pairs.len() == field_names.len(),
                forall|j: int|
                    0 <= j < pairs.len() ==> pairs[j] == (
                        #[trigger] field_names[j]@,
                        field_computations[j]@,
                    ),
                pairs == self@.pairs().take(i as int).filter(kept),
            decreases self.field_computations.len() - i,
        {
            let computation = self.field_computations[i].clone();
            let ghost pair = (self.field_names[i as int]@, computation@);
            proof {
                reveal(Seq::filter);
                assert(self@.pairs().take(i + 1).drop_last() =~= self@.pairs().take(i as int));
                assert(self@.pairs().take(i + 1).last() == pair);
            }
            if !window.same_as(&computation.return_type) {
                field_names.push(self.field_names[i].clone());
                field_computations.push(computation);
                proof {
                    pairs = pairs.push(pair);
                }
            }
            i += 1;
        }
        let r = Self { field_names, field_computations, format: self.format };
        proof {
            assert(self@.pairs().take(i as int) =~= self@.pairs());
            assert(r@.pairs() =~= pairs);
        }
        r
    }

    /// The type of the record made of the first `terms` output fields, or
    /// of all of them if there are fewer. It carries no format.
    pub fn truncated_return_type(&self, terms: usize) -> (r: StructDef)
        requires
            self@.wf(),
        ensures
            r@.name is None,
            r@.fields == self@.fields(terms as nat),
            r@.format is None,
    {
        let r = StructDef::for_fields(self.fields(terms));
        proof {
            lemma_struct_def_view(r);
        }
        r
    }
}

/// A grouping column of an aggregation, as a model: the output column, the
/// source text of the grouping expression, and its type.
pub type GroupByView = (ColumnView, Seq<char>, TypeDefView);

/// The models of a list of grouping columns, in order.
pub open spec fn group_bys_view(group_bys: Seq<(Column, String, TypeDef)>) -> Seq<GroupByView> {
    Seq::new(group_bys.len(), |i: int| (group_bys[i].0@, group_bys[i].1@, group_bys[i].2@))
}

/// The output fields of the grouping columns, in order: each named after
/// its column, with the type that was supplied for it.
pub open spec fn group_fields(group_bys: Seq<GroupByView>) -> Seq<StructFieldView> {
    Seq::new(group_bys.len(), |i: int| field_of(group_bys[i].0, group_bys[i].2))
}

/// The assignments of the grouping columns, in order: each field takes the
/// value of its grouping expression.
pub open spec fn group_assignments(group_bys: Seq<GroupByView>) -> Seq<AssignmentView> {
    Seq::new(
        group_bys.len(),
        |i: int|
            AssignmentView {
                field: field_of(group_bys[i].0, group_bys[i].2),
                value: FieldSourceView::Computation(
                    ExpressionView { source: group_bys[i].1, return_type: group_bys[i].2 },
                ),
            },
    )
}

/// Appends the output fields of the grouping columns to `fields`.
pub(crate) fn push_group_fields(group_bys: &Vec<(Column, String, TypeDef)>, fields: &mut Vec<StructField>)
    ensures
        fields_view(final(fields)@) == fields_view(old(fields)@) + group_fields(
            group_bys_view(group_bys@),
        ),
{
    let ghost before = fields_view(fields@);
    let mut i: usize = 0;
    while i < group_bys.len()
        invariant
            i <= group_bys.len(),
            fields_view(fields@) == before + group_fields(group_bys_view(group_bys@)).take(
                i as int,
            ),
        decreases group_bys.len() - i,
    {
        let column = group_bys[i].0.clone();
        let typ = group_bys[i].2.clone();
        let ghost earlier = fields_view(fields@);
        fields.push(StructField::new(column.name, column.relation, typ));
        proof {
            let all = group_fields(group_bys_view(group_bys@));
            assert(fields_view(fields@) =~= earlier.push(all[i as int]));
            assert(all.take(i + 1) =~= all.take(i as int).push(all[i as int]));
        }
        i += 1;
    }
    proof {
        let all = group_fields(group_bys_view(group_bys@));
        assert(all.take(i as int) =~= all);
    }
}

/// Appends the assignments of the grouping columns to `assignments`.
pub(crate) fn push_group_assignments(
    group_bys: &Vec<(Column, String, TypeDef)>,
    assignments: &mut Vec<Assignment>,
)
    ensures
        assignments_view(final(assignments)@) == assignments_view(old(assignments)@)
            + group_assignments(group_bys_view(group_bys@)),
{
    let ghost before = assignments_view(assignments@);
    let mut i: usize = 0;
    while i < group_bys.len()
        invariant
            i <= group_bys.len(),
            assignments_view(assignments@) == before + group_assignments(
                group_bys_view(group_bys@),
            ).take(i as int),
        decreases group_bys.len() - i,
    {
        let column = group_bys[i].0.clone();
        let typ = group_bys[i].2.clone();
        let expr = Expression::new(group_bys[i].1.clone(), group_bys[i].2.clone());
        let ghost earlier = assignments_view(assignments@);
        assignments.push(
            Assignment {
                field: StructField::new(column.name, column.relation, typ),
                value: FieldSource::Computation(expr),
            },
        );
        proof {
            let all = group_assignments(group_bys_view(group_bys@));
            assert(assignments_view(assignments@) =~= earlier.push(all[i as int]));
            assert(all.take(i + 1) =~= all.take(i as int).push(all[i as int]));
        }
        i += 1;
    }
    proof {
        let all = group_assignments(group_bys_view(group_bys@));
        assert(all.take(i as int) =~= all);
    }
}

/// A copy of a list of grouping columns.
pub(crate) fn clone_group_bys(group_bys: &Vec<(Column, String, TypeDef)>) -> (r: Vec<
    (Column, String, TypeDef),
>)
    ensures
        group_bys_view(r@) == group_bys_view(group_bys@),
{
    let mut copy: Vec<(Column, String, TypeDef)> = Vec::new();
    let mut i: usize = 0;
    while i < group_bys.len()
        invariant
            i <= group_bys.len(),
            copy.len() == i,
            forall|j: int|
                0 <= j < i ==> group_bys_view(copy@)[j] == group_bys_view(group_bys@)[j],
        decreases group_bys.len() - i,
    {
        copy.push((group_bys[i].0.clone(), group_bys[i].1.clone(), group_bys[i].2.clone()));
        i += 1;
    }
    assert(group_bys_view(copy@) =~= group_bys_view(group_bys@));
    copy
}

/// An aggregation in one phase: the aggregates to compute for each group,
/// and the grouping columns.
#[derive(Debug, PartialEq, Eq)]
pub struct AggregateProjection {
    pub aggregates: Vec<(Column, AggregationExpression)>,
    pub group_bys: Vec<(Column, String, TypeDef)>,
}

/// Mathematical model of an [`AggregateProjection`].
pub ghost struct AggregateProjectionView {
    pub aggregates: Seq<(ColumnView, AggregationView)>,
    pub group_bys: Seq<GroupByView>,
}

impl AggregateProjectionView {
    /// Every aggregate is well typed.
    pub open spec fn wf(self) -> bool {
        forall|i: int| 0 <= i < self.aggregates.len() ==> (#[trigger] self.aggregates[i]).1.well_typed()
    }

    /// The output fields of the aggregates, in order: each named after its
    /// column and typed by its aggregate's value.
    pub open spec fn aggregate_fields(self) -> Seq<StructFieldView> {
        Seq::new(
            self.aggregates.len(),
            |i: int| field_of(self.aggregates[i].0, self.aggregates[i].1.return_type()),
        )
    }

    /// The fields of the output record: those of the aggregates, then those
    /// of the grouping columns.
    pub open spec fn fields(self) -> Seq<StructFieldView> {
        self.aggregate_fields() + group_fields(self.group_bys)
    }

    /// The assignments of the aggregates, in order: each field takes the
    /// value of its aggregate over the group.
    pub open spec fn aggregate_assignments(self) -> Seq<AssignmentView> {
        Seq::new(
            self.aggregates.len(),
            |i: int|
                AssignmentView {
                    field: field_of(self.aggregates[i].0, self.aggregates[i].1.return_type()),
                    value: FieldSourceView::Aggregation(self.aggregates[i].1),
                },
        )
    }

    /// The output columns: those of the aggregates, then those of the
    /// grouping columns.
    pub open spec fn columns(self) -> Seq<ColumnView> {
        Seq::new(self.aggregates.len(), |i: int| self.aggregates[i].0) + Seq::new(
            self.group_bys.len(),
            |i: int| self.group_bys[i].0,
        )
    }

    /// Whether the aggregate at position `i` is the first that cannot be
    /// computed in two phases.
    pub open spec fn blocked_at(self, i: int) -> bool {
        &&& 0 <= i < self.aggregates.len()
        &&& !self.aggregates[i].1.aggregator.decomposable()
        &&& forall|j: int|
            0 <= j < i ==> (#[trigger] self.aggregates[j]).1.aggregator.decomposable()
    }

    /// Whether every aggregate can be computed in two phases: none is a
    /// `CountDistinct`.
    pub open spec fn supports_two_phase(self) -> bool {
        forall|i: int|
            0 <= i < self.aggregates.len() ==> (#[trigger] self.aggregates[i]).1.aggregator.decomposable()
    }
}

impl View for AggregateProjection {
    type V = AggregateProjectionView;

    open spec fn view(&self) -> AggregateProjectionView {
        AggregateProjectionView {
            aggregates: Seq::new(
                self.aggregates@.len(),
                |i: int| (self.aggregates@[i].0@, self.aggregates@[i].1@),
            ),
            group_bys: group_bys_view(self.group_bys@),
        }
    }
}

impl Clone for AggregateProjection {
    fn clone(&self) -> (r: Self)
        ensures
            r@ == self@,
    {
        let mut aggregates: Vec<(Column, AggregationExpression)> = Vec::new();
        let mut i: usize = 0;
        while i < self.aggregates.len()
            invariant
                i <= self.aggregates.len(),
                aggregates.len() == i,
                forall|j: int|
                    0 <= j < i ==> (aggregates[j].0@, aggregates[j].1@) == (
                        self.aggregates[j].0@,
                        self.aggregates[j].1@,
                    ),
            decreases self.aggregates.len() - i,
        {
            aggregates.push((self.aggregates[i].0.clone(), self.aggregates[i].1.clone()));
            i += 1;
        }
        let r = Self { aggregates, group_bys: clone_group_bys(&self.group_bys) };
        assert(r@.aggregates =~= self@.aggregates);
        r
    }
}

impl AggregateProjection {
    /// Whether every aggregate is well typed.
    pub fn is_well_formed(&self) -> (r: bool)
        ensures
            r == self@.wf(),
    {
        let mut i: usize = 0;
        while i < self.aggregates.len()
            invariant
                i <= self.aggregates.len(),
                forall|j: int| 0 <= j < i ==> (#[trigger] self@.aggregates[j]).1.well_typed(),
            decreases self.aggregates.len() - i,
        {
            if !self.aggregates[i].1.is_well_typed() {
                assert(!self@.aggregates[i as int].1.well_typed());
                return false;
            }
            i += 1;
        }
        true
    }

    /// The output fields of the aggregates, in order.
    fn aggregate_fields(&self) -> (r: Vec<StructField>)
        requires
            self@.wf(),
        ensures
            fields_view(r@) == self@.aggregate_fields(),
    {
        let mut fields: Vec<StructField> = Vec::new();
        let mut i: usize = 0;
        while i < self.aggregates.len()
            invariant
                self@.wf(),
                i <= self.aggregates.len(),
                fields.len() == i,
                forall|j: int| 0 <= j < i ==> fields[j]@ == self@.aggregate_fields()[j],
            decreases self.aggregates.len() - i,
        {
            assert(self@.aggregates[i as int].1.well_typed());
            let column = self.aggregates[i].0.clone();
            let field_type = self.aggregates[i].1.return_type();
            fields.push(StructField::new(column.name, column.relation, field_type));
            i += 1;
        }
        assert(fields_view(fields@) =~= self@.aggregate_fields());
        fields
    }

    /// The type of the output record: one field for each aggregate, then
    /// one for each grouping column, each in the order given.
    pub fn output_struct(&self) -> (r: StructDef)
        requires
            self@.wf(),
        ensures
            r@.name is None,
            r@.fields == self@.fields(),
            r@.format is None,
    {
        let mut fields = self.aggregate_fields();
        push_group_fields(&self.group_bys, &mut fields);
        let r = StructDef::for_fields(fields);
        proof {
            lemma_struct_def_view(r);
        }
        r
    }

    /// The expression that builds the output record: its type is
    /// [`Self::output_struct`]; each aggregate's field takes the value of
    /// the aggregate over the group, and each grouping field that of its
    /// grouping expression.
    pub fn to_syn_expression(&self) -> (r: StructExpression)
        requires
            self@.wf(),
        ensures
            r@.output_type.name is None,
            r@.output_type.fields == self@.fields(),
            r@.output_type.format is None,
            r@.assignments == self@.aggregate_assignments() + group_assignments(self@.group_bys),
            r@.in_schema_order(),
    {
        let mut assignments: Vec<Assignment> = Vec::new();
        let mut i: usize = 0;
        while i < self.aggregates.len()
            invariant
                self@.wf(),
                i <= self.aggregates.len(),
                assignments.len() == i,
                forall|j: int|
                    0 <= j < i ==> assignments[j]@ == self@.aggregate_assignments()[j],
            decreases self.aggregates.len() - i,
        {
            assert(self@.aggregates[i as int].1.well_typed());
            let column = self.aggregates[i].0.clone();
            let data_type = self.aggregates[i].1.return_type();
            let expr = self.aggregates[i].1.clone();
            assignments.push(
                Assignment {
                    field: StructField::new(column.name, column.relation, data_type),
                    value: FieldSource::Aggregation(expr),
                },
            );
            i += 1;
        }
        assert(assignments_view(assignments@) =~= self@.aggregate_assignments());
        push_group_assignments(&self.group_bys, &mut assignments);
        let output_type = self.output_struct();
        let r = StructExpression { output_type, assignments };
        assert(r@.assignments =~= assignments_view(r.assignments@));
        assert(assigned_fields(r@.assignments) =~= r@.output_type.fields);
        r
    }

    /// The type of the output record as a non-nullable type.
    pub fn return_type(&self) -> (r: TypeDef)
        requires
            self@.wf(),
        ensures
            r@ matches TypeDefView::StructDef(def, nullable) && !nullable && def.name is None
                && def.fields == self@.fields() && def.format is None,
    {
        TypeDef::StructDef(self.output_struct(), false)
    }

    /// Whether every aggregate can be computed in two phases.
    pub fn supports_two_phase(&self) -> (r: bool)
        ensures
            r == self@.supports_two_phase(),
    {
        let mut i: usize = 0;
        while i < self.aggregates.len()
            invariant
                i <= self.aggregates.len(),
                forall|j: int|
                    0 <= j < i ==> (#[trigger] self@.aggregates[j]).1.aggregator.decomposable(),
            decreases self.aggregates.len() - i,
        {
            if !self.aggregates[i].1.allows_two_phase() {
                assert(!self@.aggregates[i as int].1.aggregator.decomposable());
                return false;
            }
            i += 1;
        }
        true
    }
}

} // verus!
