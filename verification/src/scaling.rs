//! Denominator safety for computed statistics.
//!
//! Before a statistic row is used as a divisor, every column's value must
//! be usable: exactly-zero values are rejected first, then values whose
//! magnitude lies below the `1e-8` stability threshold. The classification
//! works on the raw bit patterns of the values: for 32- and 64-bit
//! floating-point formats, ordering the bits of the magnitude agrees with
//! ordering the magnitudes themselves for every non-NaN value, and a NaN's
//! magnitude bits lie above every threshold, so a NaN is never flagged —
//! exactly as a NaN fails an ordinary `<` comparison.

use vstd::prelude::*;

use crate::frame::{
    CellValue, col_names, column_head_cell, column_name, frame_shape, frame_width, head_cells,
};
use crate::validation::{
    ValidationError, join_names, joined, lemma_collect_finish, lemma_collect_step, selected_from,
};
use polars::prelude::{DataFrame, PolarsError};

verus! {

/// Sign bit of the 64-bit floating-point format.
pub const F64_SIGN_BIT: u64 = 0x8000_0000_0000_0000;

/// Magnitude (everything but the sign) mask of the 64-bit format.
pub const F64_MAG_MASK: u64 = 0x7FFF_FFFF_FFFF_FFFF;

/// Bit pattern of `1e-8` in the 64-bit format: a 64-bit magnitude below
/// this bound is a magnitude below the stability threshold.
pub const F64_NEAR_ZERO_BOUND: u64 = 0x3E45_798E_E230_8C3A;

/// Sign bit of the 32-bit floating-point format.
pub const F32_SIGN_BIT: u32 = 0x8000_0000;

/// Magnitude mask of the 32-bit format.
pub const F32_MAG_MASK: u32 = 0x7FFF_FFFF;

/// Smallest 32-bit magnitude whose value, widened to the 64-bit format,
/// reaches `1e-8`: a 32-bit magnitude below this bound is a magnitude
/// below the stability threshold.
pub const F32_NEAR_ZERO_BOUND: u32 = 0x322B_CC78;

/// Whether a cell holds exactly zero (positive or negative).
pub open spec fn cell_is_zero(c: CellValue) -> bool {
    match c {
        CellValue::F64(b) => b == 0 || b == F64_SIGN_BIT,
        CellValue::F32(b) => b == 0 || b == F32_SIGN_BIT,
    }
}

/// Whether a cell's magnitude lies below the `1e-8` stability threshold.
/// Zero qualifies; a NaN or infinity never does.
pub open spec fn cell_is_near_zero(c: CellValue) -> bool {
    match c {
        CellValue::F64(b) => b & F64_MAG_MASK < F64_NEAR_ZERO_BOUND,
        CellValue::F32(b) => b & F32_MAG_MASK < F32_NEAR_ZERO_BOUND,
    }
}

/// Per column: whether the exact-zero check flags its first cell.
pub open spec fn zero_bad(cells: Seq<Option<CellValue>>) -> Seq<bool> {
    cells.map_values(|c: Option<CellValue>| c matches Some(v) && cell_is_zero(v))
}

/// Per column: whether the near-zero check flags its first cell.
pub open spec fn near_zero_bad(cells: Seq<Option<CellValue>>) -> Seq<bool> {
    cells.map_values(|c: Option<CellValue>| c matches Some(v) && cell_is_near_zero(v))
}

/// The names of the columns whose first cell is exactly zero.
pub open spec fn zero_denom_offenders(
    names: Seq<Seq<char>>,
    cells: Seq<Option<CellValue>>,
) -> Seq<Seq<char>> {
    selected_from(names, zero_bad(cells), 0)
}

/// The names of the columns whose first cell is below the stability
/// threshold.
pub open spec fn near_zero_denom_offenders(
    names: Seq<Seq<char>>,
    cells: Seq<Option<CellValue>>,
) -> Seq<Seq<char>> {
    selected_from(names, near_zero_bad(cells), 0)
}

/// An unusable divisor among computed statistics, a scaler lifecycle
/// fault, or a validation failure surfacing during scaling.
#[derive(Debug)]
pub enum ScalingError {
    /// The named metric is exactly zero in the named columns.
    ZeroDenominatorError(String, String),
    /// The named metric is nearly zero in the named columns.
    NearZeroDenominatorError(String, String),
    /// `transform` was called before any statistics were fitted.
    UninitializedScaler(String),
    /// A structural defect of the input table.
    ValidationError(ValidationError),
    /// An opaque failure of the underlying table collaborator.
    PolarsError(PolarsError),
}

/// The full contract of the combined denominator rule for a statistics
/// table with the given column names and first-row cells: success exactly
/// when no column is flagged, the exact-zero verdict first, each error
/// carrying the metric label and the comma-joined offending columns.
pub open spec fn denoms_result_spec(
    names: Seq<Seq<char>>,
    cells: Seq<Option<CellValue>>,
    metric: Seq<char>,
    r: Result<(), ScalingError>,
) -> bool {
    let zero = zero_denom_offenders(names, cells);
    let near = near_zero_denom_offenders(names, cells);
    &&& (r is Ok <==> (zero.len() == 0 && near.len() == 0))
    &&& (r is Err && zero.len() > 0) ==> ({
        &&& r->Err_0 matches ScalingError::ZeroDenominatorError(m, s)
        &&& m@ == metric
        &&& s@ == joined(zero)
    })
    &&& (r is Err && zero.len() == 0) ==> ({
        &&& r->Err_0 matches ScalingError::NearZeroDenominatorError(m, s)
        &&& m@ == metric
        &&& s@ == joined(near)
    })
}

/// Whether a cell holds exactly zero (positive or negative).
fn is_zero_cell(c: CellValue) -> (r: bool)
    ensures
        r == cell_is_zero(c),
{
    match c {
        CellValue::F64(b) => b == 0 || b == F64_SIGN_BIT,
        CellValue::F32(b) => b == 0 || b == F32_SIGN_BIT,
    }
}

/// Whether a cell's magnitude lies below the `1e-8` stability threshold.
fn is_near_zero_cell(c: CellValue) -> (r: bool)
    ensures
        r == cell_is_near_zero(c),
{
    match c {
        CellValue::F64(b) => b & F64_MAG_MASK < F64_NEAR_ZERO_BOUND,
        CellValue::F32(b) => b & F32_MAG_MASK < F32_NEAR_ZERO_BOUND,
    }
}

/// Validates that no column of the statistics table holds an exactly-zero
/// value in its first row.
///
/// Returns `ZeroDenominatorError` with the metric label and every
/// offending column name.
pub fn validate_non_zero_denom(df: &DataFrame, metric: &str) -> (r: Result<(), ScalingError>)
    ensures
        r is Ok <==> zero_denom_offenders(col_names(*df), head_cells(*df)).len() == 0,
        r matches Err(e) ==> ({
            &&& e matches ScalingError::ZeroDenominatorError(m, s)
            &&& m@ == metric@
            &&& s@ == joined(zero_denom_offenders(col_names(*df), head_cells(*df)))
        }),
{
    let (_rows, width) = frame_shape(df);
    let ghost names = col_names(*df);
    let ghost bad = zero_bad(head_cells(*df));
    let mut offenders: Vec<String> = Vec::new();
    let mut i: usize = 0;
    while i < width
        invariant
            width == frame_width(*df),
            i <= width,
            names == col_names(*df),
            bad == zero_bad(head_cells(*df)),
            names.len() == width,
            bad.len() == width,
            selected_from(names, bad, 0) == offenders@.map_values(|s: String| s@)
                + selected_from(names, bad, i as int),
        decreases width - i,
    {
        let flagged = match column_head_cell(df, i) {
            Some(c) => is_zero_cell(c),
            None => false,
        };
        if flagged {
            let name = column_name(df, i);
            proof {
                lemma_collect_step(names, bad, offenders@, name, i as int);
            }
            offenders.push(name);
        }
        i += 1;
    }
    proof {
        lemma_collect_finish(names, bad, offenders@.map_values(|s: String| s@), width as int);
    }
    if offenders.len() == 0 {
        Ok(())
    } else {
        Err(ScalingError::ZeroDenominatorError(metric.to_owned(), join_names(&offenders)))
    }
}

/// Validates that no column of the statistics table holds a first-row
/// value whose magnitude lies below the `1e-8` stability threshold.
///
/// Returns `NearZeroDenominatorError` with the metric label and every
/// offending column name.
pub fn validate_near_zero_denom(df: &DataFrame, metric: &str) -> (r: Result<(), ScalingError>)
    ensures
        r is Ok <==> near_zero_denom_offenders(col_names(*df), head_cells(*df)).len() == 0,
        r matches Err(e) ==> ({
            &&& e matches ScalingError::NearZeroDenominatorError(m, s)
            &&& m@ == metric@
            &&& s@ == joined(near_zero_denom_offenders(col_names(*df), head_cells(*df)))
        }),
{
    let (_rows, width) = frame_shape(df);
    let ghost names = col_names(*df);
    let ghost bad = near_zero_bad(head_cells(*df));
    let mut offenders: Vec<String> = Vec::new();
    let mut i: usize = 0;
    while i < width
        invariant
            width == frame_width(*df),
            i <= width,
            names == col_names(*df),
            bad == near_zero_bad(head_cells(*df)),
            names.len() == width,
            bad.len() == width,
            selected_from(names, bad, 0) == offenders@.map_values(|s: String| s@)
                + selected_from(names, bad, i as int),
        decreases width - i,
    {
        let flagged = match column_head_cell(df, i) {
            Some(c) => is_near_zero_cell(c),
            None => false,
        };
        if flagged {
            let name = column_name(df, i);
            proof {
                lemma_collect_step(names, bad, offenders@, name, i as int);
            }
            offenders.push(name);
        }
        i += 1;
    }
    proof {
        lemma_collect_finish(names, bad, offenders@.map_values(|s: String| s@), width as int);
    }
    if offenders.len() == 0 {
        Ok(())
    } else {
        Err(ScalingError::NearZeroDenominatorError(metric.to_owned(), join_names(&offenders)))
    }
}

impl From<ValidationError> for ScalingError {
    /// A validation failure surfacing during scaling, losslessly wrapped.
    fn from(e: ValidationError) -> (r: ScalingError) {
        ScalingError::ValidationError(e)
    }
}

impl vstd::std_specs::convert::FromSpecImpl<ValidationError> for ScalingError {
    open spec fn obeys_from_spec() -> bool {
        true
    }

    open spec fn from_spec(e: ValidationError) -> ScalingError {
        ScalingError::ValidationError(e)
    }
}

impl From<PolarsError> for ScalingError {
    /// An opaque collaborator failure surfacing during scaling.
    fn from(e: PolarsError) -> (r: ScalingError) {
        ScalingError::PolarsError(e)
    }
}

impl vstd::std_specs::convert::FromSpecImpl<PolarsError> for ScalingError {
    open spec fn obeys_from_spec() -> bool {
        true
    }

    open spec fn from_spec(e: PolarsError) -> ScalingError {
        ScalingError::PolarsError(e)
    }
}

/// Validates a statistics table as a divisor: the exact-zero check first,
/// then the near-zero check, each reporting every offending column.
pub fn validate_denoms(df: &DataFrame, metric: &str) -> (r: Result<(), ScalingError>)
    ensures
        denoms_result_spec(col_names(*df), head_cells(*df), metric@, r),
{
    match validate_non_zero_denom(df, metric) {
        Err(e) => {
            return Err(e);
        },
        Ok(_) => {},
    }
    match validate_near_zero_denom(df, metric) {
        Err(e) => {
            return Err(e);
        },
        Ok(_) => {},
    }
    Ok(())
}

/// Validates a standard deviation table as a divisor; the denominator
/// rule applied with its usual metric label.
pub fn validate_stds(df: &DataFrame) -> (r: Result<(), ScalingError>)
    ensures
        denoms_result_spec(col_names(*df), head_cells(*df), "standard deviation"@, r),
{
    validate_denoms(df, "standard deviation")
}

} // verus!

