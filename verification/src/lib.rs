//! Filter pushdown for a columnar scan: a logical filter expression of the
//! query engine is rewritten into the expression algebra that the scan
//! understands, or refused as a whole when no faithful rewriting exists.

pub mod operator;
pub mod scalar;
pub mod expr;
pub mod error;
pub mod target;
pub mod pyarrow_filter_expression;
pub mod semantics;
pub mod laws;
pub mod common;
