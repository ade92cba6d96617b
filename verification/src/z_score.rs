//! The z-score scaler: a stateful fit/transform object.
//!
//! `standardize` validates a table, computes its per-column mean and
//! sample standard deviation (divisor `n - 1`), guards the standard
//! deviation against zero and near-zero divisors, and returns the
//! standardized table `(x - mean) / std`; the statistics are stored as
//! one-row tables when, and only when, the call succeeds. `transform`
//! re-applies the stored statistics to a table without recomputing them;
//! `reset` returns the scaler to its untrained state. Optional rounding
//! to a fixed number of decimal places is applied to the stored
//! statistics and to every output table alike.

use vstd::prelude::*;

use crate::frame::{
    all_bits, applied_bits, col_names, frame_apply_stats, frame_mean, frame_rows,
    frame_standardized, frame_std, frame_width, head_cells, mean_cells, standardized_bits,
    std_cells,
};
use crate::scaling::{
    ScalingError, near_zero_denom_offenders, validate_denoms, zero_denom_offenders,
};
use crate::validation::{check_error_matches, first_violation, joined, validate_dataframe};
use polars::prelude::DataFrame;
use vstd::string::StringExecFns;

verus! {

/// A feature scaler: computes scaling statistics for a table, returns the
/// rescaled table, and can be reset to its untrained state.
pub trait FeatureScaler {
    /// Computes scaling parameters and returns the transformed table.
    fn standardize(&mut self, df: &DataFrame, decimals: u32) -> Result<DataFrame, ScalingError>;

    /// Resets the internal state.
    fn reset(&mut self);
}

/// A z-score scaler holding the statistics of the most recent successful
/// fit: either untrained (no statistics) or fitted with a one-row mean
/// table and a one-row standard deviation table over the same columns.
pub struct ZScoreScaler {
    mean: Option<DataFrame>,
    std: Option<DataFrame>,
}

impl ZScoreScaler {
    /// The statistics are absent or present together, as one-row tables
    /// over the same columns.
    #[verifier::type_invariant]
    spec fn wf(self) -> bool {
        &&& self.mean is Some <==> self.std is Some
        &&& self.mean matches Some(m) ==> (frame_width(m) > 0 ==> frame_rows(m) == 1)
        &&& self.std matches Some(s) ==> (frame_width(s) > 0 ==> frame_rows(s) == 1)
        &&& self.mean matches Some(m) ==> (self.std matches Some(s) && frame_width(m)
            == frame_width(s) && col_names(m) == col_names(s))
    }

    /// The stored mean table, if the scaler is fitted.
    pub closed spec fn mean_frame(self) -> Option<DataFrame> {
        self.mean
    }

    /// The stored standard deviation table, if the scaler is fitted.
    pub closed spec fn std_frame(self) -> Option<DataFrame> {
        self.std
    }

    /// Whether the scaler holds fitted statistics.
    pub open spec fn is_fitted(self) -> bool {
        self.mean_frame() is Some
    }

    /// Whether the scaler holds exactly the statistics of `df` rounded to
    /// `decimals` places: a one-row mean table and a one-row standard
    /// deviation table, both over `df`'s columns.
    pub open spec fn fitted_to(self, df: DataFrame, decimals: u32) -> bool {
        &&& self.mean_frame() matches Some(m) && col_names(m) == col_names(df) && head_cells(m)
            == mean_cells(df, decimals)
        &&& self.std_frame() matches Some(s) && col_names(s) == col_names(df) && head_cells(s)
            == std_cells(df, decimals)
    }

    /// Creates an untrained scaler.
    pub fn new() -> (r: ZScoreScaler)
        ensures
            !r.is_fitted(),
            r.mean_frame() is None,
            r.std_frame() is None,
    {
        ZScoreScaler { mean: None, std: None }
    }

    /// The stored mean table: one row per fit, one column per input
    /// column; `None` while untrained.
    pub fn mean(&self) -> (r: Option<&DataFrame>)
        ensures
            r is Some <==> self.is_fitted(),
            r matches Some(m) ==> self.mean_frame() == Some(*m),
    {
        self.mean.as_ref()
    }

    /// The stored standard deviation table: one row per fit, one column
    /// per input column; `None` while untrained.
    pub fn std_dev(&self) -> (r: Option<&DataFrame>)
        ensures
            r is Some <==> self.is_fitted(),
            r matches Some(s) ==> self.std_frame() == Some(*s),
    {
        proof {
            use_type_invariant(self);
        }
        self.std.as_ref()
    }

    /// Validates `df`, computes its per-column mean and sample standard
    /// deviation (divisor `n - 1`) rounded to `decimals` places, guards
    /// the standard deviation row against zero and near-zero divisors,
    /// and returns `(x - mean) / std` rounded to `decimals` places. The
    /// computed statistics are stored only when the whole call succeeds:
    /// on any failure — a structural defect, an unusable divisor, a
    /// collaborator fault — the scaler keeps its previous state, so it is
    /// fitted to `df` exactly when the call returned a table.
    pub fn standardize(&mut self, df: &DataFrame, decimals: u32) -> (r: Result<
        DataFrame,
        ScalingError,
    >)
        ensures
            r is Err ==> *final(self) == *old(self),
            first_violation(*df) matches Some(k) ==> ({
                &&& r matches Err(e)
                &&& e matches ScalingError::ValidationError(v)
                &&& check_error_matches(*df, k, v)
            }),
            r matches Err(e) ==> (e matches ScalingError::ValidationError(_) ==> first_violation(
                *df,
            ) is Some),
            r matches Err(e) ==> !(e matches ScalingError::UninitializedScaler(_)),
            r matches Err(e) ==> (e matches ScalingError::ZeroDenominatorError(m, s) ==> ({
                &&& first_violation(*df) is None
                &&& zero_denom_offenders(col_names(*df), std_cells(*df, decimals)).len() > 0
                &&& m@ == "standard deviation"@
                &&& s@ == joined(zero_denom_offenders(col_names(*df), std_cells(*df, decimals)))
            })),
            r matches Err(e) ==> (e matches ScalingError::NearZeroDenominatorError(m, s) ==> ({
                &&& first_violation(*df) is None
                &&& zero_denom_offenders(col_names(*df), std_cells(*df, decimals)).len() == 0
                &&& near_zero_denom_offenders(col_names(*df), std_cells(*df, decimals)).len() > 0
                &&& m@ == "standard deviation"@
                &&& s@ == joined(
                    near_zero_denom_offenders(col_names(*df), std_cells(*df, decimals)),
                )
            })),
            r matches Ok(out) ==> ({
                &&& first_violation(*df) is None
                &&& zero_denom_offenders(col_names(*df), std_cells(*df, decimals)).len() == 0
                &&& near_zero_denom_offenders(col_names(*df), std_cells(*df, decimals)).len() == 0
                &&& final(self).fitted_to(*df, decimals)
                &&& col_names(out) == col_names(*df)
                &&& frame_width(*df) > 0 ==> frame_rows(out) == frame_rows(*df)
                &&& frame_width(out) == frame_width(*df)
                &&& all_bits(out) == standardized_bits(*df, decimals)
            }),
    {
        proof {
            use_type_invariant(&*self);
        }
        match validate_dataframe(df) {
            Err(e) => {
                return Err(ScalingError::ValidationError(e));
            },
            Ok(_) => {},
        }
        let mean_df = match frame_mean(df, decimals) {
            Ok(m) => m,
            Err(pe) => {
                return Err(ScalingError::PolarsError(pe));
            },
        };
        let std_df = match frame_std(df, decimals) {
            Ok(s) => s,
            Err(pe) => {
                return Err(ScalingError::PolarsError(pe));
            },
        };
        match validate_denoms(&std_df, "standard deviation") {
            Err(e) => {
                return Err(e);
            },
            Ok(_) => {},
        }
        let out = match frame_standardized(df, decimals) {
            Ok(out) => out,
            Err(pe) => {
                return Err(ScalingError::PolarsError(pe));
            },
        };
        *self = ZScoreScaler { mean: Some(mean_df), std: Some(std_df) };
        Ok(out)
    }

    /// Re-validates `df` and applies the stored statistics — not
    /// recomputed ones — to produce `(x - stored mean) / stored std`
    /// rounded to `decimals` places, so that statistics fitted on one
    /// table can rescale another.
    ///
    /// Fails with `UninitializedScaler` when no statistics are stored;
    /// this is checked before anything else, so an untrained scaler
    /// reports it even for an invalid table. The only other failures are
    /// a structural defect of `df` and a collaborator fault: applying
    /// stored statistics never raises a denominator error, since the
    /// divisors were guarded when they were fitted.
    pub fn transform(&self, df: &DataFrame, decimals: u32) -> (r: Result<DataFrame, ScalingError>)
        ensures
            !self.is_fitted() ==> ({
                &&& r matches Err(e)
                &&& e matches ScalingError::UninitializedScaler(_)
            }),
            r matches Err(e) ==> (e matches ScalingError::UninitializedScaler(_)
                ==> !self.is_fitted()),
            self.is_fitted() ==> (first_violation(*df) matches Some(k) ==> ({
                &&& r matches Err(e)
                &&& e matches ScalingError::ValidationError(v)
                &&& check_error_matches(*df, k, v)
            })),
            r matches Err(e) ==> (e matches ScalingError::ValidationError(_) ==> first_violation(
                *df,
            ) is Some),
            r matches Err(e) ==> ({
                ||| e matches ScalingError::UninitializedScaler(_)
                ||| e matches ScalingError::ValidationError(_)
                ||| e matches ScalingError::PolarsError(_)
            }),
            r matches Ok(out) ==> ({
                &&& self.is_fitted()
                &&& first_violation(*df) is None
                &&& self.mean_frame() matches Some(m)
                &&& self.std_frame() matches Some(s)
                &&& col_names(out) == col_names(m)
                &&& frame_width(out) == frame_width(m)
                &&& frame_width(m) > 0 ==> frame_rows(out) == frame_rows(*df)
                &&& all_bits(out) == applied_bits(*df, m, s, decimals)
            }),
    {
        proof {
            use_type_invariant(&*self);
        }
        match (&self.mean, &self.std) {
            (Some(m), Some(s)) => {
                match validate_dataframe(df) {
                    Err(e) => {
                        return Err(ScalingError::ValidationError(e));
                    },
                    Ok(_) => {},
                }
                match frame_apply_stats(df, m, s, decimals) {
                    Ok(out) => Ok(out),
                    Err(pe) => Err(ScalingError::PolarsError(pe)),
                }
            },
            _ => Err(
                ScalingError::UninitializedScaler(
                    String::from_str("no statistics fitted; call standardize first"),
                ),
            ),
        }
    }

    /// Clears the stored statistics, returning the scaler to its
    /// untrained state. Always succeeds; its only effect is the cleared
    /// state.
    pub fn reset(&mut self)
        ensures
            !final(self).is_fitted(),
            final(self).mean_frame() is None,
            final(self).std_frame() is None,
    {
        *self = ZScoreScaler { mean: None, std: None };
    }
}

impl Default for ZScoreScaler {
    /// An untrained scaler, as `new` builds it.
    fn default() -> (r: Self)
        ensures
            !r.is_fitted(),
            r.mean_frame() is None,
            r.std_frame() is None,
    {
        ZScoreScaler::new()
    }
}

impl FeatureScaler for ZScoreScaler {
    fn standardize(&mut self, df: &DataFrame, decimals: u32) -> Result<DataFrame, ScalingError> {
        ZScoreScaler::standardize(self, df, decimals)
    }

    fn reset(&mut self) {
        ZScoreScaler::reset(self)
    }
}

/// Standardizing one table twice with the same decimal precision is
/// deterministic: any two outputs meeting `standardize`'s success
/// contract for the same table and precision have identical contents,
/// column names and shape, down to the bit patterns of every cell.
pub proof fn lemma_standardize_deterministic(
    df: DataFrame,
    decimals: u32,
    out1: DataFrame,
    out2: DataFrame,
)
    requires
        col_names(out1) == col_names(df),
        frame_width(out1) == frame_width(df),
        all_bits(out1) == standardized_bits(df, decimals),
        col_names(out2) == col_names(df),
        frame_width(out2) == frame_width(df),
        all_bits(out2) == standardized_bits(df, decimals),
    ensures
        all_bits(out1) == all_bits(out2),
        col_names(out1) == col_names(out2),
        frame_width(out1) == frame_width(out2),
{
}

} // verus!
