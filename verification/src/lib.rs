//! Validation and z-score standardization for columnar tables of
//! floating-point features.
//!
//! The library answers two questions about a table before it is fed to a
//! numeric pipeline: is every column well-formed (floating-point dtype,
//! at least one row, free of NaN, infinite and missing values), and, for
//! well-formed data, what are the per-column mean and sample standard
//! deviation and the standardized table `(x - mean) / std`?
//!
//! The table itself is supplied by the polars collaborator and stays
//! opaque; every observation the logic needs crosses a narrow, explicit
//! boundary in `frame`. The ordering and short-circuit policy of the
//! quality checks, the agreement of their sequential and fan-out forms,
//! the zero and near-zero divisor guards, and the scaler's lifecycle are
//! verified against the contracts in `validation`, `scaling` and
//! `z_score`.

pub mod frame;
pub mod scaling;
pub mod validation;
pub mod z_score;
