//! Result types of `SUM` and `AVG`, as DataFusion's type coercion derives them.

use crate::types::DataType;
use arrow_schema::DataType as ArrowType;
use datafusion_expr::type_coercion::aggregates;
use vstd::prelude::*;

verus! {

/// `arrow_schema::DataType`, which DataFusion takes and returns. It is
/// opaque here: values of it are only built, handed over and taken apart
/// inside the trusted functions below.
#[verifier::external_type_specification]
#[verifier::external_body]
pub struct ExArrowType(ArrowType);

/// The largest precision of a 128-bit decimal.
pub const DECIMAL128_MAX_PRECISION: u8 = 38;

/// The largest scale of a 128-bit decimal.
pub const DECIMAL128_MAX_SCALE: i8 = 38;

/// Whether the type of a sum over `arg_type` can be derived: a decimal's
/// precision must leave room for the ten digits a sum adds.
pub open spec fn sum_type_derivable(arg_type: DataType) -> bool {
    arg_type matches DataType::Decimal128(precision, _) ==> precision + 10 <= u8::MAX
}

/// Whether the type of an average over `arg_type` can be derived: a decimal's
/// precision and scale must leave room for the four digits an average adds.
pub open spec fn avg_type_derivable(arg_type: DataType) -> bool {
    arg_type matches DataType::Decimal128(precision, scale) ==> precision + 4 <= u8::MAX && scale
        + 4 <= i8::MAX
}

/// The type of a sum over values of `arg_type`, where sums are supported:
/// 64-bit integers and floats keep their type, and a decimal gains ten
/// digits of precision, capped at [`DECIMAL128_MAX_PRECISION`].
pub open spec fn sum_result_type(arg_type: DataType) -> Option<DataType> {
    match arg_type {
        DataType::Int64 => Some(DataType::Int64),
        DataType::UInt64 => Some(DataType::UInt64),
        DataType::Float64 => Some(DataType::Float64),
        DataType::Decimal128(precision, scale) => Some(
            DataType::Decimal128(
                if precision + 10 < DECIMAL128_MAX_PRECISION {
                    (precision + 10) as u8
                } else {
                    DECIMAL128_MAX_PRECISION
                },
                scale,
            ),
        ),
        _ => None,
    }
}

/// The type of an average over values of `arg_type`, where averages are
/// supported: a decimal gains four digits of precision and of scale, each
/// capped at its maximum, and every other numeric type averages to `Float64`.
pub open spec fn avg_result_type(arg_type: DataType) -> Option<DataType> {
    match arg_type {
        DataType::Decimal128(precision, scale) => Some(
            DataType::Decimal128(
                if precision + 4 < DECIMAL128_MAX_PRECISION {
                    (precision + 4) as u8
                } else {
                    DECIMAL128_MAX_PRECISION
                },
                if scale + 4 < DECIMAL128_MAX_SCALE {
                    (scale + 4) as i8
                } else {
                    DECIMAL128_MAX_SCALE
                },
            ),
        ),
        DataType::Int8
        | DataType::Int16
        | DataType::Int32
        | DataType::Int64
        | DataType::UInt8
        | DataType::UInt16
        | DataType::UInt32
        | DataType::UInt64
        | DataType::Float32
        | DataType::Float64 => Some(DataType::Float64),
        _ => None,
    }
}

/// Builds the `arrow_schema::DataType` of the same name as `data_type`,
/// variant by variant, a decimal with its precision and scale. Trusted, and
/// nothing is claimed of the result here: the contracts of the two callers
/// below rest on this correspondence.
#[verifier::external_body]
fn to_arrow(data_type: DataType) -> ArrowType {
    match data_type {
        DataType::Boolean => ArrowType::Boolean,
        DataType::Int8 => ArrowType::Int8,
        DataType::Int16 => ArrowType::Int16,
        DataType::Int32 => ArrowType::Int32,
        DataType::Int64 => ArrowType::Int64,
        DataType::UInt8 => ArrowType::UInt8,
        DataType::UInt16 => ArrowType::UInt16,
        DataType::UInt32 => ArrowType::UInt32,
        DataType::UInt64 => ArrowType::UInt64,
        DataType::Float32 => ArrowType::Float32,
        DataType::Float64 => ArrowType::Float64,
        DataType::Utf8 => ArrowType::Utf8,
        DataType::Decimal128(precision, scale) => ArrowType::Decimal128(precision, scale),
    }
}

/// Calls `datafusion_expr::type_coercion::aggregates::sum_return_type` on
/// the Arrow counterpart of `arg_type`. Trusted: the result is the table of
/// [`sum_result_type`], and `None` where DataFusion reports that `SUM` does
/// not support the type. Decimals whose precision would overflow the
/// addition inside DataFusion are excluded.
#[verifier::external_body]
fn sum_return_type(arg_type: DataType) -> (r: Option<DataType>)
    requires
        sum_type_derivable(arg_type),
    ensures
        r == sum_result_type(arg_type),
{
    match aggregates::sum_return_type(&to_arrow(arg_type)) {
        Ok(ArrowType::Int64) => Some(DataType::Int64),
        Ok(ArrowType::UInt64) => Some(DataType::UInt64),
        Ok(ArrowType::Float64) => Some(DataType::Float64),
        Ok(ArrowType::Decimal128(precision, scale)) => Some(DataType::Decimal128(precision, scale)),
        _ => None,
    }
}

/// Calls `datafusion_expr::type_coercion::aggregates::avg_return_type` on
/// the Arrow counterpart of `arg_type`. Trusted: the result is the table of
/// [`avg_result_type`], and `None` where DataFusion reports that `AVG` does
/// not support the type. Decimals whose precision or scale would overflow
/// the additions inside DataFusion are excluded.
#[verifier::external_body]
fn avg_return_type(arg_type: DataType) -> (r: Option<DataType>)
    requires
        avg_type_derivable(arg_type),
    ensures
        r == avg_result_type(arg_type),
{
    match aggregates::avg_return_type(&to_arrow(arg_type)) {
        Ok(ArrowType::Float64) => Some(DataType::Float64),
        Ok(ArrowType::Decimal128(precision, scale)) => Some(DataType::Decimal128(precision, scale)),
        _ => None,
    }
}

/// The type of a sum over `input`: [`sum_result_type`] where the derivation
/// is defined, `None` elsewhere.
pub open spec fn sum_type_of(input: DataType) -> Option<DataType> {
    if sum_type_derivable(input) {
        sum_result_type(input)
    } else {
        None
    }
}

/// The type of an average over `input`: [`avg_result_type`] where the
/// derivation is defined, `None` elsewhere.
pub open spec fn avg_type_of(input: DataType) -> Option<DataType> {
    if avg_type_derivable(input) {
        avg_result_type(input)
    } else {
        None
    }
}

/// The type of a sum over `input`, `None` where sums are not supported.
pub fn sum_type(input: DataType) -> (r: Option<DataType>)
    ensures
        r == sum_type_of(input),
{
    let derivable = match input {
        DataType::Decimal128(precision, _) => precision <= u8::MAX - 10,
        _ => true,
    };
    if derivable {
        sum_return_type(input)
    } else {
        None
    }
}

/// The type of an average over `input`, `None` where averages are not
/// supported.
pub fn avg_type(input: DataType) -> (r: Option<DataType>)
    ensures
        r == avg_type_of(input),
{
    let derivable = match input {
        DataType::Decimal128(precision, scale) => precision <= u8::MAX - 4 && scale <= i8::MAX
            - 4,
        _ => true,
    };
    if derivable {
        avg_return_type(input)
    } else {
        None
    }
}

} // verus!
