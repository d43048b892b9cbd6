use arroyo_sql::coercion::{avg_type, sum_type};
use arroyo_sql::expressions::{
    derive_return_type, AggregationExpression, Aggregator, Expression,
};
use arroyo_sql::types::{window_type_def, DataType, StructDef, StructField, TypeDef};

fn scalar(data_type: DataType, nullable: bool) -> TypeDef {
    TypeDef::DataType(data_type, nullable)
}

fn input(data_type: DataType, nullable: bool) -> Expression {
    Expression::new("x".to_string(), scalar(data_type, nullable))
}

#[test]
fn sum_keeps_wide_types() {
    assert_eq!(sum_type(DataType::Int64), Some(DataType::Int64));
    assert_eq!(sum_type(DataType::UInt64), Some(DataType::UInt64));
    assert_eq!(sum_type(DataType::Float64), Some(DataType::Float64));
}

#[test]
fn sum_rejects_other_types() {
    assert_eq!(sum_type(DataType::Int8), None);
    assert_eq!(sum_type(DataType::Int32), None);
    assert_eq!(sum_type(DataType::UInt16), None);
    assert_eq!(sum_type(DataType::Float32), None);
    assert_eq!(sum_type(DataType::Utf8), None);
    assert_eq!(sum_type(DataType::Boolean), None);
}

#[test]
fn sum_widens_decimal_precision() {
    assert_eq!(sum_type(DataType::Decimal128(10, 2)), Some(DataType::Decimal128(20, 2)));
    assert_eq!(sum_type(DataType::Decimal128(27, 5)), Some(DataType::Decimal128(37, 5)));
    assert_eq!(sum_type(DataType::Decimal128(28, 5)), Some(DataType::Decimal128(38, 5)));
    assert_eq!(sum_type(DataType::Decimal128(38, -3)), Some(DataType::Decimal128(38, -3)));
    assert_eq!(sum_type(DataType::Decimal128(245, 0)), Some(DataType::Decimal128(38, 0)));
}

#[test]
fn sum_of_unrepresentable_decimal_is_unsupported() {
    assert_eq!(sum_type(DataType::Decimal128(246, 0)), None);
    assert_eq!(sum_type(DataType::Decimal128(255, 0)), None);
}

#[test]
fn avg_of_numerics_is_float64() {
    for data_type in [
        DataType::Int8,
        DataType::Int16,
        DataType::Int32,
        DataType::Int64,
        DataType::UInt8,
        DataType::UInt16,
        DataType::UInt32,
        DataType::UInt64,
        DataType::Float32,
        DataType::Float64,
    ] {
        assert_eq!(avg_type(data_type), Some(DataType::Float64));
    }
}

#[test]
fn avg_rejects_non_numerics() {
    assert_eq!(avg_type(DataType::Utf8), None);
    assert_eq!(avg_type(DataType::Boolean), None);
}

#[test]
fn avg_widens_decimal_precision_and_scale() {
    assert_eq!(avg_type(DataType::Decimal128(10, 2)), Some(DataType::Decimal128(14, 6)));
    assert_eq!(avg_type(DataType::Decimal128(36, 36)), Some(DataType::Decimal128(38, 38)));
    assert_eq!(avg_type(DataType::Decimal128(38, 33)), Some(DataType::Decimal128(38, 37)));
    assert_eq!(avg_type(DataType::Decimal128(5, -10)), Some(DataType::Decimal128(9, -6)));
    assert_eq!(avg_type(DataType::Decimal128(251, 123)), Some(DataType::Decimal128(38, 38)));
}

#[test]
fn avg_of_unrepresentable_decimal_is_unsupported() {
    assert_eq!(avg_type(DataType::Decimal128(252, 0)), None);
    assert_eq!(avg_type(DataType::Decimal128(10, 124)), None);
}

#[test]
fn return_type_of_count_is_never_null() {
    for nullable in [false, true] {
        assert_eq!(
            derive_return_type(Aggregator::Count, &scalar(DataType::Utf8, nullable)),
            Some(scalar(DataType::Int64, false))
        );
        assert_eq!(
            derive_return_type(Aggregator::CountDistinct, &scalar(DataType::Utf8, nullable)),
            Some(scalar(DataType::Int64, false))
        );
    }
}

#[test]
fn return_type_of_sum_follows_input_nullability() {
    assert_eq!(
        derive_return_type(Aggregator::Sum, &scalar(DataType::Int64, true)),
        Some(scalar(DataType::Int64, true))
    );
    assert_eq!(
        derive_return_type(Aggregator::Sum, &scalar(DataType::Decimal128(10, 2), false)),
        Some(scalar(DataType::Decimal128(20, 2), false))
    );
    assert_eq!(derive_return_type(Aggregator::Sum, &scalar(DataType::Utf8, true)), None);
}

#[test]
fn return_type_of_extrema_is_the_input_type() {
    assert_eq!(
        derive_return_type(Aggregator::Min, &scalar(DataType::Utf8, true)),
        Some(scalar(DataType::Utf8, true))
    );
    assert_eq!(
        derive_return_type(Aggregator::Max, &scalar(DataType::Int16, false)),
        Some(scalar(DataType::Int16, false))
    );
}

#[test]
fn return_type_of_avg_follows_input_nullability() {
    assert_eq!(
        derive_return_type(Aggregator::Avg, &scalar(DataType::Int32, true)),
        Some(scalar(DataType::Float64, true))
    );
    assert_eq!(
        derive_return_type(Aggregator::Avg, &scalar(DataType::Decimal128(10, 2), false)),
        Some(scalar(DataType::Decimal128(14, 6), false))
    );
    assert_eq!(derive_return_type(Aggregator::Avg, &scalar(DataType::Boolean, false)), None);
}

#[test]
fn record_inputs_have_no_aggregate_type() {
    let record = TypeDef::StructDef(StructDef::for_fields(Vec::new()), false);
    for aggregator in [
        Aggregator::Count,
        Aggregator::Sum,
        Aggregator::Min,
        Aggregator::Max,
        Aggregator::Avg,
        Aggregator::CountDistinct,
    ] {
        assert_eq!(derive_return_type(aggregator, &record), None);
    }
    assert!(!AggregationExpression::new(
        Expression::new("w".to_string(), window_type_def()),
        Aggregator::Count
    )
    .is_well_typed());
}

#[test]
fn aggregation_expression_reports_its_type() {
    let sum = AggregationExpression::new(input(DataType::Int64, true), Aggregator::Sum);
    assert!(sum.is_well_typed());
    assert!(sum.allows_two_phase());
    assert_eq!(sum.return_type(), scalar(DataType::Int64, true));

    let distinct =
        AggregationExpression::new(input(DataType::Int64, true), Aggregator::CountDistinct);
    assert!(distinct.is_well_typed());
    assert!(!distinct.allows_two_phase());
    assert_eq!(distinct.return_type(), scalar(DataType::Int64, false));

    let bad = AggregationExpression::new(input(DataType::Utf8, true), Aggregator::Sum);
    assert!(!bad.is_well_typed());
}

#[test]
fn types_compare_and_copy_structurally() {
    let field = StructField::new("a".to_string(), Some("t".to_string()), scalar(DataType::Int8, true));
    let def = StructDef::new(Some("R".to_string()), vec![field], None);
    let typ = TypeDef::StructDef(def, false);
    let copy = typ.clone();
    assert!(typ.same_as(&copy));
    assert_eq!(typ, copy);
    assert!(!typ.same_as(&window_type_def()));
    assert!(window_type_def().same_as(&window_type_def()));
    assert!(!typ.is_optional());
    let nullable = copy.with_nullity(true);
    assert!(nullable.is_optional());
    assert!(!typ.same_as(&nullable));
    assert!(scalar(DataType::Decimal128(3, 1), false)
        .same_as(&scalar(DataType::Decimal128(3, 1), false)));
    assert!(!scalar(DataType::Decimal128(3, 1), false)
        .same_as(&scalar(DataType::Decimal128(3, 2), false)));
}

#[test]
fn record_fields_must_be_unique() {
    let a = || StructField::new("a".to_string(), None, scalar(DataType::Int8, true));
    let b = || StructField::new("b".to_string(), None, scalar(DataType::Int8, true));
    let t_a = || StructField::new("a".to_string(), Some("t".to_string()), scalar(DataType::Utf8, true));
    assert!(StructDef::for_fields(Vec::new()).has_unique_fields());
    assert!(StructDef::for_fields(vec![a(), b(), t_a()]).has_unique_fields());
    assert!(!StructDef::for_fields(vec![a(), b(), a()]).has_unique_fields());
    assert!(!StructDef::for_fields(vec![t_a(), t_a()]).has_unique_fields());
}
