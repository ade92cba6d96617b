//! Structural quality checks for a table.
//!
//! Five checks run in a fixed order: the table is not empty, every column
//! has a floating-point dtype, no column holds a NaN, no column holds an
//! infinity, no column holds a missing value. The sequential entry point
//! short-circuits at the first failing check; the fan-out entry point runs
//! every check and then keeps the first failure in the same fixed order, so
//! both report the same verdict for every table.

use vstd::prelude::*;
use vstd::string::StringExecFns;

use rayon::iter::{IntoParallelRefIterator, ParallelIterator};

use crate::frame::{
    col_names, column_has_inf, column_has_nan, column_has_null, column_is_float, column_name,
    float_flags, frame_rows, frame_shape, frame_width, inf_flags, nan_flags, null_flags,
};
use polars::prelude::{DataFrame, PolarsError};

verus! {

/// A structural defect of a table. Variants that name columns carry the
/// comma-joined list of every offending column name.
#[derive(Debug)]
pub enum ValidationError {
    /// The table has no rows; carries the shape for diagnostics.
    EmptyDataFrameError { rows: usize, columns: usize },
    /// Columns whose dtype is not 32- or 64-bit floating point.
    NonNumericError(String),
    /// Columns holding at least one NaN value.
    NanValuesError(String),
    /// Columns holding at least one infinite value.
    InfiniteValuesError(String),
    /// Columns holding at least one missing (null) value.
    MissingValuesError(String),
    /// An opaque failure of the underlying table collaborator.
    PolarsError(PolarsError),
}

impl From<PolarsError> for ValidationError {
    /// An opaque collaborator failure surfacing during validation.
    fn from(e: PolarsError) -> (r: ValidationError) {
        ValidationError::PolarsError(e)
    }
}

impl vstd::std_specs::convert::FromSpecImpl<PolarsError> for ValidationError {
    open spec fn obeys_from_spec() -> bool {
        true
    }

    open spec fn from_spec(e: PolarsError) -> ValidationError {
        ValidationError::PolarsError(e)
    }
}

/// The names whose flag is set, kept in column order, from index `i` on.
pub open spec fn selected_from(names: Seq<Seq<char>>, bad: Seq<bool>, i: int) -> Seq<Seq<char>>
    decreases names.len() - i,
{
    if i < 0 || i >= names.len() {
        Seq::empty()
    } else if i < bad.len() && bad[i] {
        seq![names[i]] + selected_from(names, bad, i + 1)
    } else {
        selected_from(names, bad, i + 1)
    }
}

/// One step of an offender scan: when index `i` is flagged and the scan
/// so far has collected exactly the selection up to `i`, pushing the
/// name at `i` keeps that shape for `i + 1`.
pub(crate) proof fn lemma_collect_step(
    names: Seq<Seq<char>>,
    bad: Seq<bool>,
    offenders: Seq<String>,
    name: String,
    i: int,
)
    requires
        0 <= i < names.len(),
        i < bad.len(),
        bad[i],
        name@ == names[i],
        selected_from(names, bad, 0) == offenders.map_values(|s: String| s@) + selected_from(
            names,
            bad,
            i,
        ),
    ensures
        selected_from(names, bad, 0) == (offenders.push(name)).map_values(|s: String| s@)
            + selected_from(names, bad, i + 1),
{
    let prefix = offenders.map_values(|s: String| s@);
    assert((offenders.push(name)).map_values(|s: String| s@) =~= prefix.push(name@));
    assert(prefix.push(name@) =~= prefix + seq![names[i]]);
    assert(prefix + seq![names[i]] + selected_from(names, bad, i + 1) =~= prefix + (seq![names[i]]
        + selected_from(names, bad, i + 1)));
}

/// End of an offender scan: past the last column nothing is selected, so
/// the collected names are the whole selection.
pub(crate) proof fn lemma_collect_finish(
    names: Seq<Seq<char>>,
    bad: Seq<bool>,
    collected: Seq<Seq<char>>,
    i: int,
)
    requires
        i >= names.len(),
        selected_from(names, bad, 0) == collected + selected_from(names, bad, i),
    ensures
        selected_from(names, bad, 0) == collected,
{
    assert(selected_from(names, bad, i) =~= Seq::<Seq<char>>::empty());
    assert(collected + Seq::<Seq<char>>::empty() =~= collected);
}

/// The comma-joined form of a list of names: `"a, b, c"`.
pub open spec fn joined(names: Seq<Seq<char>>) -> Seq<char>
    decreases names.len(),
{
    if names.len() == 0 {
        Seq::empty()
    } else if names.len() == 1 {
        names[0]
    } else {
        joined(names.drop_last()) + ", "@ + names.last()
    }
}

/// Per column: whether the dtype check flags it.
pub open spec fn nonnumeric_bad(df: DataFrame) -> Seq<bool> {
    float_flags(df).map_values(|ok: bool| !ok)
}

/// Per column: whether the NaN check flags it. A column whose NaN scan
/// could not be evaluated is deliberately not flagged.
pub open spec fn nan_bad(df: DataFrame) -> Seq<bool> {
    nan_flags(df).map_values(|v: Option<bool>| v == Some(true))
}

/// Per column: whether the infinity check flags it. A column whose scan
/// could not be evaluated is deliberately not flagged.
pub open spec fn inf_bad(df: DataFrame) -> Seq<bool> {
    inf_flags(df).map_values(|v: Option<bool>| v == Some(true))
}

/// The names of the columns the dtype check flags.
pub open spec fn nonnumeric_offenders(df: DataFrame) -> Seq<Seq<char>> {
    selected_from(col_names(df), nonnumeric_bad(df), 0)
}

/// The names of the columns the NaN check flags.
pub open spec fn nan_offenders(df: DataFrame) -> Seq<Seq<char>> {
    selected_from(col_names(df), nan_bad(df), 0)
}

/// The names of the columns the infinity check flags.
pub open spec fn inf_offenders(df: DataFrame) -> Seq<Seq<char>> {
    selected_from(col_names(df), inf_bad(df), 0)
}

/// The names of the columns the missing-value check flags.
pub open spec fn missing_offenders(df: DataFrame) -> Seq<Seq<char>> {
    selected_from(col_names(df), null_flags(df), 0)
}

/// Whether check `k` of the fixed order passes on `df`.
pub open spec fn check_passes(df: DataFrame, k: int) -> bool {
    if k == 0 {
        frame_rows(df) != 0
    } else if k == 1 {
        nonnumeric_offenders(df).len() == 0
    } else if k == 2 {
        nan_offenders(df).len() == 0
    } else if k == 3 {
        inf_offenders(df).len() == 0
    } else if k == 4 {
        missing_offenders(df).len() == 0
    } else {
        true
    }
}

/// Whether `e` is exactly the error check `k` reports for `df`, with its
/// payload pinned down.
pub open spec fn check_error_matches(df: DataFrame, k: int, e: ValidationError) -> bool {
    if k == 0 {
        &&& e matches ValidationError::EmptyDataFrameError { rows, columns }
        &&& rows == frame_rows(df)
        &&& columns == frame_width(df)
    } else if k == 1 {
        e matches ValidationError::NonNumericError(s) && s@ == joined(nonnumeric_offenders(df))
    } else if k == 2 {
        e matches ValidationError::NanValuesError(s) && s@ == joined(nan_offenders(df))
    } else if k == 3 {
        e matches ValidationError::InfiniteValuesError(s) && s@ == joined(inf_offenders(df))
    } else if k == 4 {
        e matches ValidationError::MissingValuesError(s) && s@ == joined(missing_offenders(df))
    } else {
        false
    }
}

/// The full contract of one check: it succeeds exactly when the check
/// passes, and any error is the check's own, payload included.
pub open spec fn check_result_spec(df: DataFrame, k: int, r: Result<(), ValidationError>) -> bool {
    &&& r is Ok <==> check_passes(df, k)
    &&& r matches Err(e) ==> check_error_matches(df, k, e)
}

/// The first check of the fixed order that fails on `df`, if any.
pub open spec fn first_violation(df: DataFrame) -> Option<int> {
    if !check_passes(df, 0) {
        Some(0int)
    } else if !check_passes(df, 1) {
        Some(1int)
    } else if !check_passes(df, 2) {
        Some(2int)
    } else if !check_passes(df, 3) {
        Some(3int)
    } else if !check_passes(df, 4) {
        Some(4int)
    } else {
        None
    }
}

/// The full contract of whole-table validation: success exactly when no
/// check fails, and otherwise the error of the first failing check.
pub open spec fn validate_result_spec(df: DataFrame, r: Result<(), ValidationError>) -> bool {
    match first_violation(df) {
        None => r is Ok,
        Some(k) => r matches Err(e) && check_error_matches(df, k, e),
    }
}

/// Two validation errors of the same kind carrying the same data.
pub open spec fn errors_equivalent(e1: ValidationError, e2: ValidationError) -> bool {
    ||| {
        &&& e1 matches ValidationError::EmptyDataFrameError { rows: r1, columns: c1 }
        &&& e2 matches ValidationError::EmptyDataFrameError { rows: r2, columns: c2 }
        &&& r1 == r2
        &&& c1 == c2
    }
    ||| {
        &&& e1 matches ValidationError::NonNumericError(s1)
        &&& e2 matches ValidationError::NonNumericError(s2)
        &&& s1@ == s2@
    }
    ||| {
        &&& e1 matches ValidationError::NanValuesError(s1)
        &&& e2 matches ValidationError::NanValuesError(s2)
        &&& s1@ == s2@
    }
    ||| {
        &&& e1 matches ValidationError::InfiniteValuesError(s1)
        &&& e2 matches ValidationError::InfiniteValuesError(s2)
        &&& s1@ == s2@
    }
    ||| {
        &&& e1 matches ValidationError::MissingValuesError(s1)
        &&& e2 matches ValidationError::MissingValuesError(s2)
        &&& s1@ == s2@
    }
}

/// Joins a list of column names with `", "`, in order.
pub(crate) fn join_names(names: &Vec<String>) -> (r: String)
    ensures
        r@ == joined(names@.map_values(|s: String| s@)),
{
    let ghost m = names@.map_values(|s: String| s@);
    let mut out = String::new();
    let mut i: usize = 0;
    while i < names.len()
        invariant
            m == names@.map_values(|s: String| s@),
            i <= names@.len(),
            out@ == joined(m.take(i as int)),
        decreases names@.len() - i,
    {
        if i > 0 {
            out.append(", ");
        }
        out.append(names[i].as_str());
        proof {
            assert(m.take(i + 1).drop_last() =~= m.take(i as int));
            assert(m.take(i + 1).last() == m[i as int]);
            if i == 0 {
                assert(joined(m.take(1)) == m[0]);
            }
        }
        i += 1;
    }
    proof {
        assert(m.take(names@.len() as int) =~= m);
    }
    out
}

/// Validates that the table has at least one row.
///
/// Returns `EmptyDataFrameError` with the table's shape when it does not.
pub fn validate_not_empty_df(df: &DataFrame) -> (r: Result<(), ValidationError>)
    ensures
        check_result_spec(*df, 0, r),
{
    let (rows, columns) = frame_shape(df);
    if rows == 0 {
        Err(ValidationError::EmptyDataFrameError { rows, columns })
    } else {
        Ok(())
    }
}

/// Validates that every column is of a floating-point dtype (32- or
/// 64-bit).
///
/// Returns `NonNumericError` naming every column of another dtype.
pub fn validate_numeric_columns(df: &DataFrame) -> (r: Result<(), ValidationError>)
    ensures
        check_result_spec(*df, 1, r),
{
    let (_rows, width) = frame_shape(df);
    let ghost names = col_names(*df);
    let ghost bad = nonnumeric_bad(*df);
    let mut offenders: Vec<String> = Vec::new();
    let mut i: usize = 0;
    while i < width
        invariant
            width == frame_width(*df),
            i <= width,
            names == col_names(*df),
            bad == nonnumeric_bad(*df),
            names.len() == width,
            bad.len() == width,
            selected_from(names, bad, 0) == offenders@.map_values(|s: String| s@)
                + selected_from(names, bad, i as int),
        decreases width - i,
    {
        if !column_is_float(df, i) {
            let name = column_name(df, i);
            proof {
                lemma_collect_step(names, bad, offenders@, name, i as int);
            }
            offenders.push(name);
        }
        i += 1;
    }
    proof {
        lemma_collect_finish(names, bad, offenders@.map_values(|s: String| s@), width as int);
    }
    if offenders.len() == 0 {
        Ok(())
    } else {
        Err(ValidationError::NonNumericError(join_names(&offenders)))
    }
}

/// Validates that no column contains a NaN value. A column whose NaN scan
/// cannot be evaluated counts as free of NaNs.
///
/// Returns `NanValuesError` naming every column with a NaN.
pub fn validate_nan_values(df: &DataFrame) -> (r: Result<(), ValidationError>)
    ensures
        check_result_spec(*df, 2, r),
{
    let (_rows, width) = frame_shape(df);
    let ghost names = col_names(*df);
    let ghost bad = nan_bad(*df);
    let mut offenders: Vec<String> = Vec::new();
    let mut i: usize = 0;
    while i < width
        invariant
            width == frame_width(*df),
            i <= width,
            names == col_names(*df),
            bad == nan_bad(*df),
            names.len() == width,
            bad.len() == width,
            selected_from(names, bad, 0) == offenders@.map_values(|s: String| s@)
                + selected_from(names, bad, i as int),
        decreases width - i,
    {
        let has_nan = match column_has_nan(df, i) {
            Some(true) => true,
            _ => false,
        };
        if has_nan {
            let name = column_name(df, i);
            proof {
                lemma_collect_step(names, bad, offenders@, name, i as int);
            }
            offenders.push(name);
        }
        i += 1;
    }
    proof {
        lemma_collect_finish(names, bad, offenders@.map_values(|s: String| s@), width as int);
    }
    if offenders.len() == 0 {
        Ok(())
    } else {
        Err(ValidationError::NanValuesError(join_names(&offenders)))
    }
}

/// Validates that no column contains an infinite value. A column whose
/// scan cannot be evaluated counts as free of infinities.
///
/// Returns `InfiniteValuesError` naming every column with an infinity.
pub fn validate_infinite_values(df: &DataFrame) -> (r: Result<(), ValidationError>)
    ensures
        check_result_spec(*df, 3, r),
{
    let (_rows, width) = frame_shape(df);
    let ghost names = col_names(*df);
    let ghost bad = inf_bad(*df);
    let mut offenders: Vec<String> = Vec::new();
    let mut i: usize = 0;
    while i < width
        invariant
            width == frame_width(*df),
            i <= width,
            names == col_names(*df),
            bad == inf_bad(*df),
            names.len() == width,
            bad.len() == width,
            selected_from(names, bad, 0) == offenders@.map_values(|s: String| s@)
                + selected_from(names, bad, i as int),
        decreases width - i,
    {
        let has_inf = match column_has_inf(df, i) {
            Some(true) => true,
            _ => false,
        };
        if has_inf {
            let name = column_name(df, i);
            proof {
                lemma_collect_step(names, bad, offenders@, name, i as int);
            }
            offenders.push(name);
        }
        i += 1;
    }
    proof {
        lemma_collect_finish(names, bad, offenders@.map_values(|s: String| s@), width as int);
    }
    if offenders.len() == 0 {
        Ok(())
    } else {
        Err(ValidationError::InfiniteValuesError(join_names(&offenders)))
    }
}

/// Validates that no column contains a missing (null) value.
///
/// Returns `MissingValuesError` naming every column with a missing entry.
pub fn validate_missing_values(df: &DataFrame) -> (r: Result<(), ValidationError>)
    ensures
        check_result_spec(*df, 4, r),
{
    let (_rows, width) = frame_shape(df);
    let ghost names = col_names(*df);
    let ghost bad = null_flags(*df);
    let mut offenders: Vec<String> = Vec::new();
    let mut i: usize = 0;
    while i < width
        invariant
            width == frame_width(*df),
            i <= width,
            names == col_names(*df),
            bad == null_flags(*df),
            names.len() == width,
            bad.len() == width,
            selected_from(names, bad, 0) == offenders@.map_values(|s: String| s@)
                + selected_from(names, bad, i as int),
        decreases width - i,
    {
        if column_has_null(df, i) {
            let name = column_name(df, i);
            proof {
                lemma_collect_step(names, bad, offenders@, name, i as int);
            }
            offenders.push(name);
        }
        i += 1;
    }
    proof {
        lemma_collect_finish(names, bad, offenders@.map_values(|s: String| s@), width as int);
    }
    if offenders.len() == 0 {
        Ok(())
    } else {
        Err(ValidationError::MissingValuesError(join_names(&offenders)))
    }
}

/// Validates a table for preprocessing by running the five structural
/// checks in their fixed order, short-circuiting at the first failure.
///
/// A table with zero rows always reports `EmptyDataFrameError`, whatever
/// else is wrong with it.
pub fn validate_dataframe(df: &DataFrame) -> (r: Result<(), ValidationError>)
    ensures
        validate_result_spec(*df, r),
        r is Ok <==> first_violation(*df) is None,
        frame_rows(*df) == 0 ==> ({
            &&& r matches Err(e)
            &&& e matches ValidationError::EmptyDataFrameError { rows, columns }
            &&& rows == 0
            &&& columns == frame_width(*df)
        }),
{
    match validate_not_empty_df(df) {
        Err(e) => {
            return Err(e);
        },
        Ok(_) => {},
    }
    match validate_numeric_columns(df) {
        Err(e) => {
            return Err(e);
        },
        Ok(_) => {},
    }
    match validate_nan_values(df) {
        Err(e) => {
            return Err(e);
        },
        Ok(_) => {},
    }
    match validate_infinite_values(df) {
        Err(e) => {
            return Err(e);
        },
        Ok(_) => {},
    }
    match validate_missing_values(df) {
        Err(e) => {
            return Err(e);
        },
        Ok(_) => {},
    }
    Ok(())
}

/// Relies on rayon's `par_iter`/`map`/`collect` keeping one result per
/// dispatched check, in the order of the input list: slot `k` holds the
/// verdict of check `k`, each computed by the corresponding verified
/// check of this module.
#[verifier::external_body]
fn run_checks_parallel(df: &DataFrame) -> (r: Vec<Result<(), ValidationError>>)
    ensures
        r@.len() == 5,
        forall|k: int| 0 <= k < 5 ==> check_result_spec(*df, k, #[trigger] r@[k]),
{
    let checks: Vec<fn(&DataFrame) -> Result<(), ValidationError>> = vec![
        validate_not_empty_df,
        validate_numeric_columns,
        validate_nan_values,
        validate_infinite_values,
        validate_missing_values,
    ];
    checks.par_iter().map(|check| check(df)).collect()
}

/// Fan-out form of whole-table validation: the five checks are dispatched
/// to a worker pool, run independently to completion, and the first
/// failure in the fixed check order is kept. The verdict is the same as
/// the sequential form's for every table.
pub fn validate_dataframe_parallel(df: &DataFrame) -> (r: Result<(), ValidationError>)
    ensures
        validate_result_spec(*df, r),
        r is Ok <==> first_violation(*df) is None,
{
    let mut results = run_checks_parallel(df);
    let r4 = results.pop().unwrap();
    let r3 = results.pop().unwrap();
    let r2 = results.pop().unwrap();
    let r1 = results.pop().unwrap();
    let r0 = results.pop().unwrap();
    match r0 {
        Err(e) => {
            return Err(e);
        },
        Ok(_) => {},
    }
    match r1 {
        Err(e) => {
            return Err(e);
        },
        Ok(_) => {},
    }
    match r2 {
        Err(e) => {
            return Err(e);
        },
        Ok(_) => {},
    }
    match r3 {
        Err(e) => {
            return Err(e);
        },
        Ok(_) => {},
    }
    match r4 {
        Err(e) => {
            return Err(e);
        },
        Ok(_) => {},
    }
    Ok(())
}

/// Sequential and fan-out validation agree: for one table, any two results
/// that meet the two entry points' contracts are both successes or both
/// the same error, down to the reported column lists and shape.
pub proof fn lemma_sequential_parallel_agree(
    df: DataFrame,
    r1: Result<(), ValidationError>,
    r2: Result<(), ValidationError>,
)
    requires
        validate_result_spec(df, r1),
        validate_result_spec(df, r2),
    ensures
        r1 is Ok <==> r2 is Ok,
        (r1 is Err && r2 is Err) ==> errors_equivalent(r1->Err_0, r2->Err_0),
{
}

/// Validation is idempotent: the table is read, never changed, so any two
/// runs of validation on the same table report the same verdict, down to
/// the reported column lists and shape.
pub proof fn lemma_validation_idempotent(
    df: DataFrame,
    first: Result<(), ValidationError>,
    second: Result<(), ValidationError>,
)
    requires
        validate_result_spec(df, first),
        validate_result_spec(df, second),
    ensures
        first is Ok <==> second is Ok,
        (first is Err && second is Err) ==> errors_equivalent(first->Err_0, second->Err_0),
{
    lemma_sequential_parallel_agree(df, first, second);
}

} // verus!
