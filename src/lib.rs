//! Square roots by Newton's iteration, with the decisions around the
//! arithmetic verified: which inputs are rejected, which have their root
//! without iterating, when the iteration stops, and how a batch fails.
//!
//! A binary64 number is handed to the library as its bit pattern
//! (`f64::to_bits`); the arithmetic on the numbers themselves stays with the
//! caller.

pub mod ieee;
pub mod error;
pub mod solver;
pub mod batch;

pub use batch::plan_batch;
pub use error::SqrtError;
pub use solver::{is_converged, start, Refinement, Start, MAX_REFINEMENTS, TOLERANCE_BITS};
