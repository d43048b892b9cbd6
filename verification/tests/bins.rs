use arroyo_sql::bins::{AggregateValue, Bin, BinType};
use arroyo_sql::expressions::{AggregationExpression, Aggregator, Expression};
use arroyo_sql::two_phase::{AggregateError, TwoPhaseAggregation};
use arroyo_sql::types::{DataType, StructDef, TypeDef};

fn aggregation(aggregator: Aggregator, nullable: bool) -> TwoPhaseAggregation {
    TwoPhaseAggregation {
        incoming_expression: Expression::new(
            "value".to_string(),
            TypeDef::DataType(DataType::Int64, nullable),
        ),
        aggregator,
    }
}

fn fold_all(aggregation: &TwoPhaseAggregation, values: &[Option<i64>]) -> Option<Bin> {
    let mut bin = None;
    for value in values {
        bin = Some(aggregation.bin_syn_expr(bin, *value));
    }
    bin
}

fn combine_all(aggregation: &TwoPhaseAggregation, a: Option<Bin>, b: Option<Bin>) -> Option<Bin> {
    match (a, b) {
        (Some(a), Some(b)) => Some(aggregation.combine_bin_syn_expr(a, b)),
        (a, None) => a,
        (None, b) => b,
    }
}

fn finalize_all(aggregation: &TwoPhaseAggregation, bin: Option<Bin>) -> AggregateValue {
    match bin {
        Some(bin) => aggregation.bin_aggregating_expression(&bin),
        None => AggregateValue::Null,
    }
}

const TWO_PHASE: [Aggregator; 5] =
    [Aggregator::Count, Aggregator::Sum, Aggregator::Min, Aggregator::Max, Aggregator::Avg];

#[test]
fn well_formedness_of_aggregations() {
    for aggregator in TWO_PHASE {
        assert!(aggregation(aggregator, true).is_well_formed());
        assert!(aggregation(aggregator, false).is_well_formed());
    }
    assert!(!aggregation(Aggregator::CountDistinct, true).is_well_formed());
    let over_text = TwoPhaseAggregation {
        incoming_expression: Expression::new(
            "name".to_string(),
            TypeDef::DataType(DataType::Utf8, false),
        ),
        aggregator: Aggregator::Sum,
    };
    assert!(!over_text.is_well_formed());
    let avg_over_narrow = TwoPhaseAggregation {
        incoming_expression: Expression::new(
            "n".to_string(),
            TypeDef::DataType(DataType::Int32, false),
        ),
        aggregator: Aggregator::Avg,
    };
    assert!(!avg_over_narrow.is_well_formed());
    let min_over_text = TwoPhaseAggregation {
        incoming_expression: Expression::new(
            "name".to_string(),
            TypeDef::DataType(DataType::Utf8, false),
        ),
        aggregator: Aggregator::Min,
    };
    assert!(min_over_text.is_well_formed());
    let over_record = TwoPhaseAggregation {
        incoming_expression: Expression::new(
            "r".to_string(),
            TypeDef::StructDef(StructDef::for_fields(Vec::new()), false),
        ),
        aggregator: Aggregator::Count,
    };
    assert!(!over_record.is_well_formed());
}

#[test]
fn conversion_of_one_aggregate() {
    let input = Expression::new("v".to_string(), TypeDef::DataType(DataType::Int64, true));
    let ok = TwoPhaseAggregation::try_from(AggregationExpression::new(
        input.clone(),
        Aggregator::Max,
    ));
    assert_eq!(
        ok,
        Ok(TwoPhaseAggregation { incoming_expression: input.clone(), aggregator: Aggregator::Max })
    );
    let err = TwoPhaseAggregation::try_from(AggregationExpression::new(
        input,
        Aggregator::CountDistinct,
    ));
    assert_eq!(err, Err(AggregateError::UnsupportedAggregator(Aggregator::CountDistinct)));
}

#[test]
fn types_of_aggregations() {
    let sum = TwoPhaseAggregation {
        incoming_expression: Expression::new(
            "d".to_string(),
            TypeDef::DataType(DataType::Decimal128(10, 2), true),
        ),
        aggregator: Aggregator::Sum,
    };
    assert_eq!(sum.aggregate_type(), DataType::Decimal128(20, 2));
    assert_eq!(sum.aggregate_type_def(), TypeDef::DataType(DataType::Decimal128(20, 2), false));
    assert_eq!(sum.return_type(), TypeDef::DataType(DataType::Decimal128(20, 2), true));
    assert_eq!(sum.bin_type(), BinType::OptionalAccumulator(DataType::Decimal128(20, 2)));

    let avg = aggregation(Aggregator::Avg, false);
    assert_eq!(avg.aggregate_type(), DataType::Int64);
    assert_eq!(avg.return_type(), TypeDef::DataType(DataType::Float64, false));
    assert_eq!(avg.bin_type(), BinType::CountAndSum(DataType::Int64));
    assert_eq!(
        aggregation(Aggregator::Avg, true).bin_type(),
        BinType::OptionalCountAndSum(DataType::Int64)
    );

    let count = TwoPhaseAggregation {
        incoming_expression: Expression::new(
            "s".to_string(),
            TypeDef::DataType(DataType::Utf8, true),
        ),
        aggregator: Aggregator::Count,
    };
    assert_eq!(count.aggregate_type(), DataType::Int64);
    assert_eq!(count.return_type(), TypeDef::DataType(DataType::Int64, false));
    assert_eq!(count.bin_type(), BinType::Count);

    let min = TwoPhaseAggregation {
        incoming_expression: Expression::new(
            "s".to_string(),
            TypeDef::DataType(DataType::Utf8, false),
        ),
        aggregator: Aggregator::Min,
    };
    assert_eq!(min.aggregate_type(), DataType::Utf8);
    assert_eq!(min.bin_type(), BinType::Accumulator(DataType::Utf8));
    assert_eq!(min.return_type(), TypeDef::DataType(DataType::Utf8, false));
}

#[test]
fn bins_fit_their_aggregate() {
    assert!(Bin::Count(3).fits(Aggregator::Count, false));
    assert!(!Bin::Count(3).fits(Aggregator::Sum, false));
    assert!(Bin::Value(None).fits(Aggregator::Sum, true));
    assert!(!Bin::Value(None).fits(Aggregator::Sum, false));
    assert!(Bin::Value(Some(1)).fits(Aggregator::Min, false));
    assert!(Bin::Average(Some((1, 1))).fits(Aggregator::Avg, false));
    assert!(!Bin::Average(None).fits(Aggregator::Avg, false));
    assert!(Bin::Average(None).fits(Aggregator::Avg, true));
    assert!(!Bin::Count(0).fits(Aggregator::CountDistinct, true));
}

#[test]
fn count_folds() {
    let nullable = aggregation(Aggregator::Count, true);
    assert_eq!(nullable.bin_syn_expr(None, None), Bin::Count(0));
    assert_eq!(nullable.bin_syn_expr(None, Some(9)), Bin::Count(1));
    assert_eq!(nullable.bin_syn_expr(Some(Bin::Count(4)), None), Bin::Count(4));
    assert_eq!(nullable.bin_syn_expr(Some(Bin::Count(4)), Some(-1)), Bin::Count(5));
    let plain = aggregation(Aggregator::Count, false);
    assert_eq!(plain.bin_syn_expr(None, Some(9)), Bin::Count(1));
    assert_eq!(plain.bin_syn_expr(Some(Bin::Count(4)), Some(9)), Bin::Count(5));
}

#[test]
fn sum_folds() {
    let sum = aggregation(Aggregator::Sum, true);
    assert_eq!(sum.bin_syn_expr(None, None), Bin::Value(None));
    assert_eq!(sum.bin_syn_expr(None, Some(4)), Bin::Value(Some(4)));
    assert_eq!(sum.bin_syn_expr(Some(Bin::Value(None)), None), Bin::Value(None));
    assert_eq!(sum.bin_syn_expr(Some(Bin::Value(None)), Some(4)), Bin::Value(Some(4)));
    assert_eq!(sum.bin_syn_expr(Some(Bin::Value(Some(3))), None), Bin::Value(Some(3)));
    assert_eq!(sum.bin_syn_expr(Some(Bin::Value(Some(3))), Some(4)), Bin::Value(Some(7)));
    let plain = aggregation(Aggregator::Sum, false);
    assert_eq!(plain.bin_syn_expr(None, Some(0)), Bin::Value(Some(0)));
    assert_eq!(plain.bin_syn_expr(Some(Bin::Value(Some(3))), Some(-4)), Bin::Value(Some(-1)));
}

#[test]
fn zero_sum_is_not_absent() {
    let sum = aggregation(Aggregator::Sum, true);
    let bin = fold_all(&sum, &[Some(5), None, Some(-5)]);
    assert_eq!(bin, Some(Bin::Value(Some(0))));
    assert_eq!(finalize_all(&sum, bin), AggregateValue::Integer(0));
}

#[test]
fn min_and_max_fold() {
    let min = aggregation(Aggregator::Min, true);
    let max = aggregation(Aggregator::Max, true);
    let values = [None, Some(5), Some(-2), None, Some(9)];
    assert_eq!(fold_all(&min, &values), Some(Bin::Value(Some(-2))));
    assert_eq!(fold_all(&max, &values), Some(Bin::Value(Some(9))));
    assert_eq!(min.bin_syn_expr(Some(Bin::Value(Some(3))), Some(3)), Bin::Value(Some(3)));
    assert_eq!(min.bin_syn_expr(Some(Bin::Value(Some(3))), None), Bin::Value(Some(3)));
    assert_eq!(max.bin_syn_expr(Some(Bin::Value(None)), Some(-7)), Bin::Value(Some(-7)));
    let plain = aggregation(Aggregator::Min, false);
    assert_eq!(plain.bin_syn_expr(None, Some(1)), Bin::Value(Some(1)));
    assert_eq!(plain.bin_syn_expr(Some(Bin::Value(Some(1))), Some(0)), Bin::Value(Some(0)));
}

#[test]
fn avg_folds() {
    let avg = aggregation(Aggregator::Avg, true);
    assert_eq!(avg.bin_syn_expr(None, None), Bin::Average(None));
    assert_eq!(avg.bin_syn_expr(None, Some(6)), Bin::Average(Some((1, 6))));
    assert_eq!(avg.bin_syn_expr(Some(Bin::Average(Some((2, 10)))), None), Bin::Average(Some((2, 10))));
    assert_eq!(
        avg.bin_syn_expr(Some(Bin::Average(Some((2, 10)))), Some(5)),
        Bin::Average(Some((3, 15)))
    );
    let plain = aggregation(Aggregator::Avg, false);
    assert_eq!(plain.bin_syn_expr(None, Some(6)), Bin::Average(Some((1, 6))));
    assert_eq!(
        plain.bin_syn_expr(Some(Bin::Average(Some((1, 6)))), Some(4)),
        Bin::Average(Some((2, 10)))
    );
}

#[test]
fn bins_combine() {
    let count = aggregation(Aggregator::Count, true);
    assert_eq!(count.combine_bin_syn_expr(Bin::Count(2), Bin::Count(5)), Bin::Count(7));
    let sum = aggregation(Aggregator::Sum, true);
    assert_eq!(
        sum.combine_bin_syn_expr(Bin::Value(Some(2)), Bin::Value(Some(5))),
        Bin::Value(Some(7))
    );
    assert_eq!(sum.combine_bin_syn_expr(Bin::Value(Some(2)), Bin::Value(None)), Bin::Value(Some(2)));
    assert_eq!(sum.combine_bin_syn_expr(Bin::Value(None), Bin::Value(Some(5))), Bin::Value(Some(5)));
    assert_eq!(sum.combine_bin_syn_expr(Bin::Value(None), Bin::Value(None)), Bin::Value(None));
    let min = aggregation(Aggregator::Min, true);
    assert_eq!(
        min.combine_bin_syn_expr(Bin::Value(Some(2)), Bin::Value(Some(5))),
        Bin::Value(Some(2))
    );
    let max = aggregation(Aggregator::Max, false);
    assert_eq!(
        max.combine_bin_syn_expr(Bin::Value(Some(2)), Bin::Value(Some(5))),
        Bin::Value(Some(5))
    );
    let avg = aggregation(Aggregator::Avg, true);
    assert_eq!(
        avg.combine_bin_syn_expr(Bin::Average(Some((2, 10))), Bin::Average(Some((3, 5)))),
        Bin::Average(Some((5, 15)))
    );
    assert_eq!(
        avg.combine_bin_syn_expr(Bin::Average(None), Bin::Average(Some((3, 5)))),
        Bin::Average(Some((3, 5)))
    );
    assert_eq!(
        avg.combine_bin_syn_expr(Bin::Average(Some((3, 5))), Bin::Average(None)),
        Bin::Average(Some((3, 5)))
    );
}

#[test]
fn bins_finalize() {
    let count = aggregation(Aggregator::Count, true);
    assert_eq!(count.bin_aggregating_expression(&Bin::Count(7)), AggregateValue::Integer(7));
    let sum = aggregation(Aggregator::Sum, true);
    assert_eq!(sum.bin_aggregating_expression(&Bin::Value(Some(-3))), AggregateValue::Integer(-3));
    assert_eq!(sum.bin_aggregating_expression(&Bin::Value(None)), AggregateValue::Null);
    let avg = aggregation(Aggregator::Avg, true);
    assert_eq!(
        avg.bin_aggregating_expression(&Bin::Average(Some((4, 10)))),
        AggregateValue::Ratio { sum: 10, count: 4 }
    );
    assert_eq!(avg.bin_aggregating_expression(&Bin::Average(None)), AggregateValue::Null);
}

#[test]
fn sums_and_counts_wrap() {
    let sum = aggregation(Aggregator::Sum, false);
    assert_eq!(
        sum.bin_syn_expr(Some(Bin::Value(Some(i64::MAX))), Some(1)),
        Bin::Value(Some(i64::MIN))
    );
    assert_eq!(
        sum.combine_bin_syn_expr(Bin::Value(Some(i64::MIN)), Bin::Value(Some(-1))),
        Bin::Value(Some(i64::MAX))
    );
    let count = aggregation(Aggregator::Count, false);
    assert_eq!(count.bin_syn_expr(Some(Bin::Count(i64::MAX)), Some(0)), Bin::Count(i64::MIN));
}

#[test]
fn fold_and_combine_agree_on_any_split() {
    let values = [Some(4), None, Some(-7), Some(4), None, Some(i64::MAX), Some(12), Some(0)];
    // A rearrangement of the same values.
    let shuffled = [Some(0), Some(12), None, Some(4), Some(i64::MAX), None, Some(4), Some(-7)];
    for aggregator in TWO_PHASE {
        let aggregation = aggregation(aggregator, true);
        let whole = finalize_all(&aggregation, fold_all(&aggregation, &values));
        for split in 0..=shuffled.len() {
            let a = fold_all(&aggregation, &shuffled[..split]);
            let b = fold_all(&aggregation, &shuffled[split..]);
            let combined = combine_all(&aggregation, a, b);
            assert_eq!(combined, fold_all(&aggregation, &values));
            assert_eq!(finalize_all(&aggregation, combined), whole);
        }
    }
}

#[test]
fn expected_values_of_a_batch() {
    let values = [Some(4), None, Some(-7), Some(4)];
    let expect = [
        (Aggregator::Count, AggregateValue::Integer(3)),
        (Aggregator::Sum, AggregateValue::Integer(1)),
        (Aggregator::Min, AggregateValue::Integer(-7)),
        (Aggregator::Max, AggregateValue::Integer(4)),
        (Aggregator::Avg, AggregateValue::Ratio { sum: 1, count: 3 }),
    ];
    for (aggregator, value) in expect {
        let aggregation = aggregation(aggregator, true);
        assert_eq!(finalize_all(&aggregation, fold_all(&aggregation, &values)), value);
    }
}

#[test]
fn nulls_fold_to_an_absent_bin() {
    let nulls = [None, None, None];
    assert_eq!(fold_all(&aggregation(Aggregator::Count, true), &nulls), Some(Bin::Count(0)));
    for aggregator in [Aggregator::Sum, Aggregator::Min, Aggregator::Max] {
        let aggregation = aggregation(aggregator, true);
        assert_eq!(fold_all(&aggregation, &nulls), Some(Bin::Value(None)));
        assert_eq!(finalize_all(&aggregation, fold_all(&aggregation, &nulls)), AggregateValue::Null);
    }
}

#[test]
fn avg_of_nulls_is_null() {
    let avg = aggregation(Aggregator::Avg, true);
    let bin = fold_all(&avg, &[None, None]);
    assert_eq!(bin, Some(Bin::Average(None)));
    assert_eq!(finalize_all(&avg, bin), AggregateValue::Null);
    assert_eq!(finalize_all(&avg, fold_all(&avg, &[])), AggregateValue::Null);
}
