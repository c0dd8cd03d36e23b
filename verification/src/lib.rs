//! Unwrapping with a located diagnostic.
//!
//! [`VerboseUnwrap`] and [`VerboseUnwrapErr`] stand in for `unwrap` and
//! `unwrap_err` on `Option` and `Result`. Where the container holds nothing
//! to unwrap they yield a text that names the failed operation, the place of
//! the call, the caller's message and the offending container. The library
//! never terminates anything itself: it hands the text to its caller.

pub mod decimal;
pub mod report;
pub mod text;
pub mod verbose;

pub use report::Failure;
pub use verbose::{VerboseUnwrap, VerboseUnwrapErr};
