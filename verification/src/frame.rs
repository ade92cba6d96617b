//! Model of the columnar table collaborator.
//!
//! The core never looks inside a `DataFrame` directly: every observation it
//! needs (shape, column names, dtype class, per-column quality flags, the
//! first cell of a one-row statistics table) is pulled out through a trusted
//! wrapper and mirrored by an uninterpreted model function, so that all
//! decisions taken on those observations are verified.

use vstd::prelude::*;

use polars::prelude::{
    AnyValue, Column, DataFrame, DataType, IntoLazy, PolarsError, RoundMode, RoundSeries, all,
};

verus! {

#[verifier::external_type_specification]
#[verifier::external_body]
pub struct ExDataFrame(DataFrame);

#[verifier::external_type_specification]
#[verifier::external_body]
pub struct ExPolarsError(PolarsError);

#[verifier::external_type_specification]
#[verifier::external_body]
pub struct ExColumn(Column);

/// The first cell of a column, as the raw bit pattern of its floating-point
/// value, tagged with the storage width it came from.
#[derive(Clone, Copy, Debug, PartialEq, Eq, Structural)]
pub enum CellValue {
    /// Bits of a 64-bit floating-point value.
    F64(u64),
    /// Bits of a 32-bit floating-point value.
    F32(u32),
}

/// Number of rows of a table.
pub uninterp spec fn frame_rows(df: DataFrame) -> nat;

/// Number of columns of a table.
pub uninterp spec fn frame_width(df: DataFrame) -> nat;

/// The column names of a table, in column order.
pub uninterp spec fn col_names(df: DataFrame) -> Seq<Seq<char>>;

/// Per column: whether its dtype is a floating-point type (32- or 64-bit).
pub uninterp spec fn float_flags(df: DataFrame) -> Seq<bool>;

/// Per column: the verdict of the has-any-NaN scan; `None` when the
/// predicate itself cannot be evaluated for the column's dtype.
pub uninterp spec fn nan_flags(df: DataFrame) -> Seq<Option<bool>>;

/// Per column: the verdict of the has-any-infinity scan; `None` when the
/// predicate itself cannot be evaluated for the column's dtype.
pub uninterp spec fn inf_flags(df: DataFrame) -> Seq<Option<bool>>;

/// Per column: whether the column contains a missing (null) entry.
pub uninterp spec fn null_flags(df: DataFrame) -> Seq<bool>;

/// Per column: the first cell as tagged bits, `None` when the column is
/// empty or its first cell is not a floating-point value.
pub uninterp spec fn head_cells(df: DataFrame) -> Seq<Option<CellValue>>;

/// The full contents of a table: per column, per row, the bit pattern of
/// the cell.
pub uninterp spec fn all_bits(df: DataFrame) -> Seq<Seq<u64>>;

/// The first-row cells of the per-column mean table computed for `df` and
/// rounded to `decimals` places.
pub uninterp spec fn mean_cells(df: DataFrame, decimals: u32) -> Seq<Option<CellValue>>;

/// The first-row cells of the per-column sample standard deviation table
/// (divisor `n - 1`) computed for `df` and rounded to `decimals` places.
pub uninterp spec fn std_cells(df: DataFrame, decimals: u32) -> Seq<Option<CellValue>>;

/// The contents of the standardized table `(x - mean) / std`, rounded to
/// `decimals` places, computed for `df` with its own statistics.
pub uninterp spec fn standardized_bits(df: DataFrame, decimals: u32) -> Seq<Seq<u64>>;

/// The contents of `df` standardized with the previously stored statistics
/// tables `means` and `stds`, rounded to `decimals` places.
pub uninterp spec fn applied_bits(
    df: DataFrame,
    means: DataFrame,
    stds: DataFrame,
    decimals: u32,
) -> Seq<Seq<u64>>;

/// Relies on `DataFrame::shape`: the pair (row count, column count);
/// every per-column observation sequence has one entry per column.
#[verifier::external_body]
pub(crate) fn frame_shape(df: &DataFrame) -> (r: (usize, usize))
    ensures
        r.0 == frame_rows(*df),
        r.1 == frame_width(*df),
        r.1 == col_names(*df).len(),
        r.1 == float_flags(*df).len(),
        r.1 == nan_flags(*df).len(),
        r.1 == inf_flags(*df).len(),
        r.1 == null_flags(*df).len(),
        r.1 == head_cells(*df).len(),
        r.1 == all_bits(*df).len(),
{
    df.shape()
}

/// Relies on `Column::name`: the name of column `i`.
#[verifier::external_body]
pub(crate) fn column_name(df: &DataFrame, i: usize) -> (r: String)
    requires
        i < frame_width(*df),
    ensures
        r@ == col_names(*df)[i as int],
{
    df.columns()[i].name().to_string()
}

/// Relies on `Column::dtype`: whether column `i` stores 64- or 32-bit
/// floating-point values.
#[verifier::external_body]
pub(crate) fn column_is_float(df: &DataFrame, i: usize) -> (r: bool)
    requires
        i < frame_width(*df),
    ensures
        r == float_flags(*df)[i as int],
{
    matches!(df.columns()[i].dtype(), DataType::Float64 | DataType::Float32)
}

/// Relies on `Column::is_nan` and `BooleanChunked::any`: whether column `i`
/// contains a NaN; `None` when the predicate rejects the column's dtype.
#[verifier::external_body]
pub(crate) fn column_has_nan(df: &DataFrame, i: usize) -> (r: Option<bool>)
    requires
        i < frame_width(*df),
    ensures
        r == nan_flags(*df)[i as int],
{
    match df.columns()[i].is_nan() {
        Ok(mask) => Some(mask.any()),
        Err(_) => None,
    }
}

/// Relies on `Column::is_infinite` and `BooleanChunked::any`: whether column
/// `i` contains an infinity; `None` when the predicate rejects the dtype.
#[verifier::external_body]
pub(crate) fn column_has_inf(df: &DataFrame, i: usize) -> (r: Option<bool>)
    requires
        i < frame_width(*df),
    ensures
        r == inf_flags(*df)[i as int],
{
    match df.columns()[i].is_infinite() {
        Ok(mask) => Some(mask.any()),
        Err(_) => None,
    }
}

/// Relies on `Column::is_null` and `BooleanChunked::any`: whether column `i`
/// contains a missing entry.
#[verifier::external_body]
pub(crate) fn column_has_null(df: &DataFrame, i: usize) -> (r: bool)
    requires
        i < frame_width(*df),
    ensures
        r == null_flags(*df)[i as int],
{
    df.columns()[i].is_null().any()
}

/// Relies on `Column::get` and the `AnyValue` variants: the first cell of
/// column `i` as tagged bits when it holds a floating-point value.
#[verifier::external_body]
pub(crate) fn column_head_cell(df: &DataFrame, i: usize) -> (r: Option<CellValue>)
    requires
        i < frame_width(*df),
    ensures
        r == head_cells(*df)[i as int],
{
    match df.columns()[i].get(0) {
        Ok(AnyValue::Float64(v)) => Some(CellValue::F64(v.to_bits())),
        Ok(AnyValue::Float32(v)) => Some(CellValue::F32(v.to_bits())),
        _ => None,
    }
}

/// Relies on `LazyFrame::select` with the wildcard selector, `Expr::mean`
/// and `Expr::round`: a one-row table (empty for a table without columns)
/// holding each column's arithmetic mean rounded to `decimals` places,
/// names and order kept.
#[verifier::external_body]
pub(crate) fn frame_mean(df: &DataFrame, decimals: u32) -> (r: Result<DataFrame, PolarsError>)
    requires
        frame_rows(*df) > 0,
    ensures
        r matches Ok(m) ==> (frame_width(*df) > 0 ==> frame_rows(m) == 1),
        r matches Ok(m) ==> frame_width(m) == frame_width(*df),
        r matches Ok(m) ==> col_names(m) == col_names(*df),
        r matches Ok(m) ==> head_cells(m) == mean_cells(*df, decimals),
{
    df.clone()
        .lazy()
        .select([all().as_expr().mean().round(decimals, RoundMode::HalfAwayFromZero)])
        .collect()
}

/// Relies on `LazyFrame::select` with the wildcard selector, `Expr::std`
/// with divisor `n - 1` and `Expr::round`: a one-row table (empty for a
/// table without columns) holding each column's sample standard deviation
/// rounded to `decimals` places, names and order kept.
#[verifier::external_body]
pub(crate) fn frame_std(df: &DataFrame, decimals: u32) -> (r: Result<DataFrame, PolarsError>)
    requires
        frame_rows(*df) > 0,
    ensures
        r matches Ok(s) ==> (frame_width(*df) > 0 ==> frame_rows(s) == 1),
        r matches Ok(s) ==> frame_width(s) == frame_width(*df),
        r matches Ok(s) ==> col_names(s) == col_names(*df),
        r matches Ok(s) ==> head_cells(s) == std_cells(*df, decimals),
{
    df.clone()
        .lazy()
        .select([all().as_expr().std(1).round(decimals, RoundMode::HalfAwayFromZero)])
        .collect()
}

/// Relies on `LazyFrame::select` with the wildcard selector and the
/// expression `(x - mean(x)) / std(x)` rounded to `decimals` places:
/// the standardized table, one output column per input column, names,
/// order and row count kept.
#[verifier::external_body]
pub(crate) fn frame_standardized(df: &DataFrame, decimals: u32) -> (r: Result<
    DataFrame,
    PolarsError,
>)
    requires
        frame_rows(*df) > 0,
    ensures
        r matches Ok(out) ==> (frame_width(*df) > 0 ==> frame_rows(out) == frame_rows(*df)),
        r matches Ok(out) ==> frame_width(out) == frame_width(*df),
        r matches Ok(out) ==> col_names(out) == col_names(*df),
        r matches Ok(out) ==> all_bits(out) == standardized_bits(*df, decimals),
{
    df.clone()
        .lazy()
        .select(
            [
                ((all().as_expr() - all().as_expr().mean()) / all().as_expr().std(1)).round(
                    decimals,
                    RoundMode::HalfAwayFromZero,
                ),
            ],
        )
        .collect()
}

/// Relies on `DataFrame::column`, `Series` subtraction and division with
/// unit-length broadcasting, and `RoundSeries::round`: each column of the
/// stored statistics tables picks the column of `df` with the same name and
/// yields `(x - mean) / std` rounded to `decimals` places; output column
/// names and order follow `means`, and with one-row statistics each output
/// column keeps `df`'s row count.
#[verifier::external_body]
pub(crate) fn frame_apply_stats(
    df: &DataFrame,
    means: &DataFrame,
    stds: &DataFrame,
    decimals: u32,
) -> (r: Result<DataFrame, PolarsError>)
    requires
        frame_width(*means) == frame_width(*stds),
        frame_width(*means) > 0 ==> frame_rows(*means) == 1,
        frame_width(*stds) > 0 ==> frame_rows(*stds) == 1,
    ensures
        r matches Ok(out) ==> frame_width(out) == frame_width(*means),
        r matches Ok(out) ==> col_names(out) == col_names(*means),
        r matches Ok(out) ==> (frame_width(*means) > 0 ==> frame_rows(out) == frame_rows(*df)),
        r matches Ok(out) ==> all_bits(out) == applied_bits(*df, *means, *stds, decimals),
{
    let mut out: Vec<Column> = Vec::with_capacity(means.width());
    for (m, s) in means.columns().iter().zip(stds.columns().iter()) {
        let x = df.column(m.name().as_str())?.as_materialized_series();
        let centered = (x - m.as_materialized_series())?;
        let scaled = (&centered / s.as_materialized_series())?;
        out.push(scaled.round(decimals, RoundMode::HalfAwayFromZero)?.into());
    }
    DataFrame::new_infer_height(out)
}

} // verus!
