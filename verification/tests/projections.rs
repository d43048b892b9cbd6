use arroyo_sql::bins::{AggregateValue, Bin, BinType};
use arroyo_sql::expressions::{AggregationExpression, Aggregator, Column, Expression};
use arroyo_sql::memory::{Memory, MemoryType};
use arroyo_sql::operators::{AggregateProjection, Projection, TwoPhaseAggregateProjection};
use arroyo_sql::records::{Assignment, FieldSource};
use arroyo_sql::two_phase::{AggregateError, TwoPhaseAggregation};
use arroyo_sql::types::{window_type_def, DataType, Format, StructDef, StructField, TypeDef};

fn column(relation: Option<&str>, name: &str) -> Column {
    Column::new(relation.map(|r| r.to_string()), name.to_string())
}

fn scalar(data_type: DataType, nullable: bool) -> TypeDef {
    TypeDef::DataType(data_type, nullable)
}

fn expression(source: &str, return_type: TypeDef) -> Expression {
    Expression::new(source.to_string(), return_type)
}

fn field(relation: Option<&str>, name: &str, data_type: TypeDef) -> StructField {
    StructField::new(name.to_string(), relation.map(|r| r.to_string()), data_type)
}

fn projection() -> Projection {
    Projection::new(
        vec![column(Some("t"), "a"), column(None, "w"), column(None, "b"), column(None, "unused")],
        vec![
            expression("x + 1", scalar(DataType::Int64, false)),
            expression("window", window_type_def()),
            expression("name", scalar(DataType::Utf8, true)),
        ],
    )
}

fn aggregate(name: &str, aggregator: Aggregator, data_type: DataType, nullable: bool) -> (Column, AggregationExpression) {
    (
        column(None, name),
        AggregationExpression::new(expression("v", scalar(data_type, nullable)), aggregator),
    )
}

fn group_by(name: &str, source: &str, typ: TypeDef) -> (Column, String, TypeDef) {
    (column(Some("g"), name), source.to_string(), typ)
}

fn aggregate_projection() -> AggregateProjection {
    AggregateProjection {
        aggregates: vec![
            aggregate("total", Aggregator::Sum, DataType::Int64, true),
            aggregate("rows", Aggregator::Count, DataType::Utf8, true),
            aggregate("mean", Aggregator::Avg, DataType::Int64, false),
        ],
        group_bys: vec![
            group_by("k", "key.k", scalar(DataType::Utf8, false)),
            group_by("w", "key.w", window_type_def()),
        ],
    }
}

fn expected_aggregate_fields() -> Vec<StructField> {
    vec![
        field(None, "total", scalar(DataType::Int64, true)),
        field(None, "rows", scalar(DataType::Int64, false)),
        field(None, "mean", scalar(DataType::Float64, false)),
        field(Some("g"), "k", scalar(DataType::Utf8, false)),
        field(Some("g"), "w", window_type_def()),
    ]
}

fn group_assignments() -> Vec<Assignment> {
    vec![
        Assignment {
            field: field(Some("g"), "k", scalar(DataType::Utf8, false)),
            value: FieldSource::Computation(expression("key.k", scalar(DataType::Utf8, false))),
        },
        Assignment {
            field: field(Some("g"), "w", window_type_def()),
            value: FieldSource::Computation(expression("key.w", window_type_def())),
        },
    ]
}

#[test]
fn projection_schema() {
    let mut projection = projection();
    projection.format = Some(Format::Json);
    let expected = StructDef::new(
        None,
        vec![
            field(Some("t"), "a", scalar(DataType::Int64, false)),
            field(None, "w", window_type_def()),
            field(None, "b", scalar(DataType::Utf8, true)),
        ],
        Some(Format::Json),
    );
    assert_eq!(projection.output_struct(), expected);
    assert_eq!(projection.return_type(), TypeDef::StructDef(expected, false));
}

#[test]
fn projection_truncates() {
    let projection = projection();
    assert_eq!(projection.truncated_return_type(0), StructDef::for_fields(Vec::new()));
    assert_eq!(
        projection.truncated_return_type(1),
        StructDef::for_fields(vec![field(Some("t"), "a", scalar(DataType::Int64, false))])
    );
    assert_eq!(projection.truncated_return_type(3).fields.len(), 3);
    assert_eq!(projection.truncated_return_type(9).fields.len(), 3);
    let truncated = projection.to_truncated_syn_expression(2);
    assert_eq!(truncated.output_type, projection.truncated_return_type(2));
    assert_eq!(
        truncated.assignments,
        vec![
            Assignment {
                field: field(Some("t"), "a", scalar(DataType::Int64, false)),
                value: FieldSource::Computation(expression("x + 1", scalar(DataType::Int64, false))),
            },
            Assignment {
                field: field(None, "w", window_type_def()),
                value: FieldSource::Computation(expression("window", window_type_def())),
            },
        ]
    );
}

#[test]
fn projection_expression_assigns_every_field() {
    let projection = projection();
    let expression = projection.to_syn_expression();
    assert_eq!(expression.output_type, projection.output_struct());
    assert_eq!(expression.assignments.len(), 3);
    assert_eq!(expression.assignments, projection.to_truncated_syn_expression(3).assignments);
    let fields: Vec<&StructField> = expression.assignments.iter().map(|a| &a.field).collect();
    let expected: Vec<&StructField> = expression.output_type.fields.iter().collect();
    assert_eq!(fields, expected);
}

#[test]
fn projection_strips_window_columns() {
    let mut projection = projection();
    projection.format = Some(Format::Avro);
    let stripped = projection.without_window();
    assert_eq!(stripped.field_names, vec![column(Some("t"), "a"), column(None, "b")]);
    assert_eq!(
        stripped.field_computations,
        vec![
            expression("x + 1", scalar(DataType::Int64, false)),
            expression("name", scalar(DataType::Utf8, true)),
        ]
    );
    assert_eq!(stripped.format, Some(Format::Avro));
}

#[test]
fn projection_keeps_nullable_window_columns() {
    // Only the marker type itself is stripped, not a type that differs in
    // nullability.
    let projection = Projection::new(
        vec![column(None, "w")],
        vec![expression("w", window_type_def().with_nullity(true))],
    );
    assert_eq!(projection.without_window().field_names.len(), 1);
}

#[test]
fn aggregate_schema_lists_aggregates_before_groups() {
    let projection = aggregate_projection();
    assert!(projection.is_well_formed());
    assert_eq!(projection.output_struct(), StructDef::for_fields(expected_aggregate_fields()));
    assert_eq!(
        projection.return_type(),
        TypeDef::StructDef(StructDef::for_fields(expected_aggregate_fields()), false)
    );
}

#[test]
fn aggregate_schema_without_aggregates_or_groups() {
    let only_groups = AggregateProjection {
        aggregates: Vec::new(),
        group_bys: vec![group_by("k", "key.k", scalar(DataType::Utf8, false))],
    };
    assert_eq!(
        only_groups.output_struct(),
        StructDef::for_fields(vec![field(Some("g"), "k", scalar(DataType::Utf8, false))])
    );
    assert!(only_groups.supports_two_phase());
    let only_aggregates = AggregateProjection {
        aggregates: vec![aggregate("n", Aggregator::CountDistinct, DataType::Utf8, true)],
        group_bys: Vec::new(),
    };
    assert_eq!(
        only_aggregates.output_struct(),
        StructDef::for_fields(vec![field(None, "n", scalar(DataType::Int64, false))])
    );
}

#[test]
fn aggregate_expression_assigns_aggregates_then_groups() {
    let projection = aggregate_projection();
    let expression = projection.to_syn_expression();
    assert_eq!(expression.output_type, projection.output_struct());
    let mut expected: Vec<Assignment> = projection
        .aggregates
        .iter()
        .zip(expected_aggregate_fields())
        .map(|((_, aggregation), field)| Assignment {
            field,
            value: FieldSource::Aggregation(aggregation.clone()),
        })
        .collect();
    expected.extend(group_assignments());
    assert_eq!(expression.assignments, expected);
}

#[test]
fn ill_typed_aggregates_are_detected() {
    let projection = AggregateProjection {
        aggregates: vec![
            aggregate("rows", Aggregator::Count, DataType::Utf8, true),
            aggregate("total", Aggregator::Sum, DataType::Utf8, true),
        ],
        group_bys: Vec::new(),
    };
    assert!(!projection.is_well_formed());
}

#[test]
fn two_phase_gate() {
    assert!(aggregate_projection().supports_two_phase());
    let mut with_distinct = aggregate_projection();
    with_distinct
        .aggregates
        .insert(1, aggregate("d", Aggregator::CountDistinct, DataType::Int64, true));
    assert!(!with_distinct.supports_two_phase());
    assert_eq!(
        TwoPhaseAggregateProjection::try_from(with_distinct),
        Err(AggregateError::UnsupportedAggregator(Aggregator::CountDistinct))
    );
    let empty = AggregateProjection { aggregates: Vec::new(), group_bys: Vec::new() };
    assert!(empty.supports_two_phase());
    assert!(TwoPhaseAggregateProjection::try_from(empty).is_ok());
}

fn two_phase() -> TwoPhaseAggregateProjection {
    TwoPhaseAggregateProjection::try_from(aggregate_projection()).unwrap()
}

#[test]
fn conversion_keeps_aggregates_and_groups_in_order() {
    let source = aggregate_projection();
    let converted = two_phase();
    assert_eq!(converted.group_bys, source.group_bys);
    let expected: Vec<(Column, TwoPhaseAggregation)> = source
        .aggregates
        .iter()
        .map(|(column, aggregation)| {
            (
                column.clone(),
                TwoPhaseAggregation {
                    incoming_expression: aggregation.producing_expression.clone(),
                    aggregator: aggregation.aggregator,
                },
            )
        })
        .collect();
    assert_eq!(converted.aggregates, expected);
    assert!(converted.is_well_formed());
    assert_eq!(converted.output_struct(), source.output_struct());
}

#[test]
fn conversion_does_not_check_accumulator_types() {
    let projection = AggregateProjection {
        aggregates: vec![aggregate("mean", Aggregator::Avg, DataType::Int32, false)],
        group_bys: Vec::new(),
    };
    assert!(projection.is_well_formed());
    let converted = TwoPhaseAggregateProjection::try_from(projection).unwrap();
    assert!(!converted.is_well_formed());
}

#[test]
fn tuple_types() {
    let projection = two_phase();
    assert_eq!(
        projection.bin_type(),
        vec![
            BinType::OptionalAccumulator(DataType::Int64),
            BinType::Count,
            BinType::CountAndSum(DataType::Int64),
        ]
    );
    assert_eq!(
        projection.memory_type(),
        vec![
            MemoryType::OptionalSum(DataType::Int64),
            MemoryType::Count,
            MemoryType::Average(DataType::Int64),
        ]
    );
    assert!(!projection.trailing_comma());
    let single = TwoPhaseAggregateProjection {
        aggregates: vec![projection.aggregates[1].clone()],
        group_bys: Vec::new(),
    };
    assert!(single.trailing_comma());
    assert_eq!(single.bin_type(), vec![BinType::Count]);
    let none = TwoPhaseAggregateProjection { aggregates: Vec::new(), group_bys: Vec::new() };
    assert!(!none.trailing_comma());
    assert_eq!(none.bin_type(), Vec::new());
}

#[test]
fn rows_fold_into_bins() {
    let projection = two_phase();
    let first = projection.bin_merger_syn_expression(None, &vec![None, Some(1), Some(10)]);
    assert_eq!(first, vec![Bin::Value(None), Bin::Count(1), Bin::Average(Some((1, 10)))]);
    let second = projection.bin_merger_syn_expression(Some(&first), &vec![Some(7), None, Some(20)]);
    assert_eq!(second, vec![Bin::Value(Some(7)), Bin::Count(1), Bin::Average(Some((2, 30)))]);
    let third = projection.bin_merger_syn_expression(Some(&second), &vec![Some(-2), Some(0), Some(0)]);
    assert_eq!(third, vec![Bin::Value(Some(5)), Bin::Count(2), Bin::Average(Some((3, 30)))]);
}

#[test]
fn bins_combine_aggregate_by_aggregate() {
    let projection = two_phase();
    let a = vec![Bin::Value(None), Bin::Count(1), Bin::Average(Some((1, 10)))];
    let b = vec![Bin::Value(Some(7)), Bin::Count(3), Bin::Average(Some((2, 5)))];
    assert_eq!(projection.combine_bin_syn_expr(None, &b), b);
    assert_eq!(
        projection.combine_bin_syn_expr(Some(&a), &b),
        vec![Bin::Value(Some(7)), Bin::Count(4), Bin::Average(Some((3, 15)))]
    );
}

#[test]
fn tumbling_window_output() {
    let projection = two_phase();
    let bins = vec![Bin::Value(None), Bin::Count(4), Bin::Average(Some((3, 15)))];
    let record = projection.tumbling_aggregation_syn_expression(&bins);
    assert_eq!(record.output_type, projection.output_struct());
    let values = [
        AggregateValue::Null,
        AggregateValue::Integer(4),
        AggregateValue::Ratio { sum: 15, count: 3 },
    ];
    let mut expected: Vec<Assignment> = expected_aggregate_fields()
        .into_iter()
        .zip(values)
        .map(|(field, value)| Assignment { field, value: FieldSource::Value(value) })
        .collect();
    expected.extend(group_assignments());
    assert_eq!(record.assignments, expected);
}

#[test]
fn sliding_window_memory() {
    let projection = two_phase();
    let first = vec![Bin::Value(Some(4)), Bin::Count(2), Bin::Average(Some((2, 8)))];
    let second = vec![Bin::Value(None), Bin::Count(1), Bin::Average(Some((1, 1)))];
    let memory = projection.memory_add_syn_expression(None, &first);
    assert_eq!(
        memory,
        (
            1,
            vec![
                Memory::Sum { bins: 1, present: 1, sum: Some(4) },
                Memory::Count { bins: 1, count: 2 },
                Memory::Average { bins: 1, present: 1, average: Some((2, 8)) },
            ]
        )
    );
    let memory = projection.memory_add_syn_expression(Some(memory), &second);
    assert_eq!(
        memory,
        (
            2,
            vec![
                Memory::Sum { bins: 2, present: 1, sum: Some(4) },
                Memory::Count { bins: 2, count: 3 },
                Memory::Average { bins: 2, present: 2, average: Some((3, 9)) },
            ]
        )
    );
    let record = projection.sliding_aggregation_syn_expression(&memory);
    assert_eq!(record.output_type, projection.output_struct());
    let values: Vec<&FieldSource> = record.assignments.iter().map(|a| &a.value).collect();
    assert_eq!(
        values[..3],
        [
            &FieldSource::Value(AggregateValue::Integer(4)),
            &FieldSource::Value(AggregateValue::Integer(3)),
            &FieldSource::Value(AggregateValue::Ratio { sum: 9, count: 3 }),
        ]
    );
    assert_eq!(record.assignments[3..], group_assignments()[..]);

    let memory = projection.memory_remove_syn_expression(memory, &first).unwrap();
    assert_eq!(
        memory,
        (
            1,
            vec![
                Memory::Sum { bins: 1, present: 0, sum: None },
                Memory::Count { bins: 1, count: 1 },
                Memory::Average { bins: 1, present: 1, average: Some((1, 1)) },
            ]
        )
    );
    assert_eq!(projection.memory_remove_syn_expression(memory, &second), None);
}

#[test]
fn inputs_are_checked_against_the_aggregation() {
    let projection = two_phase();
    let bins = vec![Bin::Value(None), Bin::Count(1), Bin::Average(Some((1, 10)))];
    assert!(projection.fits_bins(&bins));
    assert!(!projection.fits_bins(&bins[..2].to_vec()));
    assert!(!projection.fits_bins(&vec![Bin::Count(0), Bin::Count(1), Bin::Average(Some((1, 1)))]));
    // The average's input is not nullable, so its bin is never absent.
    assert!(!projection.fits_bins(&vec![Bin::Value(None), Bin::Count(1), Bin::Average(None)]));

    assert!(projection.fits_values(&vec![None, None, Some(1)]));
    assert!(!projection.fits_values(&vec![None, None, None]));
    assert!(!projection.fits_values(&vec![None, None]));

    let memory = projection.memory_add_syn_expression(None, &bins);
    assert!(projection.fits_memory(&memory));
    assert!(projection.holds_bins(&memory, &bins));
    let other = vec![Bin::Value(Some(1)), Bin::Count(1), Bin::Average(Some((1, 10)))];
    assert!(!projection.holds_bins(&memory, &other));
    assert!(!projection.fits_memory(&(2, memory.1.clone())));
    assert!(!projection.fits_memory(&(1, Vec::new())));
    assert!(!projection.fits_memory(&(0, memory.1)));
}

#[test]
fn projections_with_too_few_columns_are_detected() {
    assert!(projection().is_well_formed());
    let short = Projection::new(
        vec![column(None, "a")],
        vec![
            expression("x", scalar(DataType::Int64, false)),
            expression("y", scalar(DataType::Int64, false)),
        ],
    );
    assert!(!short.is_well_formed());
    assert_eq!(projection().clone(), projection());
    assert_eq!(aggregate_projection().clone(), aggregate_projection());
    assert_eq!(two_phase().clone(), two_phase());
}
