//! The decisions of Newton's iteration for a square root.
//!
//! For an input `x` the iteration starts at `x / 2` and replaces a guess `g`
//! by `(g + x / g) / 2` until two successive guesses differ by less than
//! `1e-10`. The library decides whether an input is rejected or has its root
//! without iterating, and, from the difference of two successive guesses,
//! whether to stop; the caller does the arithmetic.

use vstd::prelude::*;

use crate::error::SqrtError;
use crate::ieee::{
    abs_below, below_zero, is_infinite, is_nan, is_negative, is_zero, magnitude_of,
    positive_finite, sign_set, INFINITY_BITS, SIGN_BIT,
};

verus! {

/// The binary64 pattern of `1e-10`, the largest difference between two
/// successive guesses that is not yet small enough to stop.
pub const TOLERANCE_BITS: u64 = 0x3ddb_7cdf_d9d7_bdbb;

/// The most refinements that one computation makes. Starting from half the
/// input, a guess roughly halves on each step until it nears the root, so
/// even the largest finite input is within reach of its root after about a
/// thousand steps; the bound also ends the iteration where two neighbouring
/// guesses alternate without coming closer.
pub const MAX_REFINEMENTS: u32 = 2048;

/// How the root of an accepted input is had.
#[derive(Debug, Clone, Copy, PartialEq, Eq, Structural)]
pub enum Start {
    /// The root is the input itself: a zero (of either sign), positive
    /// infinity, or a NaN.
    Exact,
    /// The input is finite and above zero: the root is refined from half the
    /// input.
    Refine,
}

/// What the computation for the input with pattern `x` starts with.
pub open spec fn start_of(x: u64) -> Result<Start, SqrtError> {
    if below_zero(x) {
        Err(SqrtError::NegativeNumber(x))
    } else if positive_finite(x) {
        Ok(Start::Refine)
    } else {
        Ok(Start::Exact)
    }
}

/// Two successive guesses whose difference has pattern `diff` are close
/// enough to stop.
pub open spec fn converged(diff: u64) -> bool {
    abs_below(diff, TOLERANCE_BITS)
}

/// Decides how the root of the input with pattern `x_bits` is had, or rejects
/// the input when it compares below zero.
pub fn start(x_bits: u64) -> (r: Result<Start, SqrtError>)
    ensures
        r == start_of(x_bits),
        below_zero(x_bits) <==> r == Err::<Start, SqrtError>(SqrtError::NegativeNumber(x_bits)),
        positive_finite(x_bits) <==> r == Ok::<Start, SqrtError>(Start::Refine),
        r == Ok::<Start, SqrtError>(Start::Exact) <==> (is_zero(x_bits) || is_nan(x_bits) || (
        is_infinite(x_bits) && !sign_set(x_bits))),
{
    if is_negative(x_bits) {
        Err(SqrtError::NegativeNumber(x_bits))
    } else {
        let m = magnitude_of(x_bits);
        if x_bits < SIGN_BIT && 0 < m && m < INFINITY_BITS {
            Ok(Start::Refine)
        } else {
            Ok(Start::Exact)
        }
    }
}

/// Whether two successive guesses whose difference has pattern `diff_bits`
/// are close enough to stop: the difference's absolute value is below
/// `1e-10`. A NaN difference is never close enough.
pub fn is_converged(diff_bits: u64) -> (r: bool)
    ensures
        r == converged(diff_bits),
{
    magnitude_of(diff_bits) < TOLERANCE_BITS
}

/// The count of refinements made so far in one computation, which decides
/// when the iteration stops.
pub struct Refinement {
    steps: u32,
}

impl Refinement {
    /// The number of refinements recorded so far.
    pub closed spec fn steps_taken(&self) -> nat {
        self.steps as nat
    }

    /// The count never passes the bound.
    pub closed spec fn wf(&self) -> bool {
        self.steps <= MAX_REFINEMENTS
    }

    /// No refinement made yet.
    pub fn new() -> (r: Refinement)
        ensures
            r.wf(),
            r.steps_taken() == 0,
    {
        Refinement { steps: 0 }
    }

    pub fn steps(&self) -> (r: u32)
        ensures
            r == self.steps_taken(),
    {
        self.steps
    }

    /// Records one refinement, whose new guess differs from the one before it
    /// by the number with pattern `diff_bits`, and says whether to stop: the
    /// guesses have converged, or the bound on refinements is reached. Once
    /// the bound is reached the count stays there.
    pub fn record(&mut self, diff_bits: u64) -> (stop: bool)
        requires
            old(self).wf(),
        ensures
            final(self).wf(),
            final(self).steps_taken() == if old(self).steps_taken() < MAX_REFINEMENTS {
                old(self).steps_taken() + 1
            } else {
                MAX_REFINEMENTS as nat
            },
            stop == (converged(diff_bits) || final(self).steps_taken() == MAX_REFINEMENTS),
    {
        if self.steps < MAX_REFINEMENTS {
            self.steps = self.steps + 1;
        }
        is_converged(diff_bits) || self.steps == MAX_REFINEMENTS
    }
}

} // verus!
