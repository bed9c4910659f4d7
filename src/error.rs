//! The ways a square-root computation fails.

use vstd::prelude::*;

verus! {

/// The text that a negative-number error starts with; the offending number
/// follows it.
pub const NEGATIVE_NUMBER_PREFIX: &'static str = "Cannot calculate the square root of a negative number: ";

/// The text of an execution fault.
pub const EXECUTION_FAULT_TEXT: &'static str = "The worker task did not run the computation to completion";

#[derive(Debug, Clone, Copy, PartialEq, Eq, Structural)]
pub enum SqrtError {
    /// The input compares below zero. Holds the input's binary64 pattern,
    /// exactly as it was given.
    NegativeNumber(u64),
    /// The worker that was to run the computation did not run it to
    /// completion. Never a statement about the input.
    ExecutionFault,
}

impl SqrtError {
    /// The error's text. `rendered_value` is the offending number as the
    /// caller renders it (the default decimal form of the number, which
    /// writes a whole number without a fraction: `-4`).
    pub fn to_message(&self, rendered_value: &str) -> (r: String)
        ensures
            match self {
                SqrtError::NegativeNumber(_) => r@ == NEGATIVE_NUMBER_PREFIX@ + rendered_value@,
                SqrtError::ExecutionFault => r@ == EXECUTION_FAULT_TEXT@,
            },
    {
        match self {
            SqrtError::NegativeNumber(_) => {
                let mut text = String::from_str(NEGATIVE_NUMBER_PREFIX);
                text.append(rendered_value);
                text
            },
            SqrtError::ExecutionFault => String::from_str(EXECUTION_FAULT_TEXT),
        }
    }

    /// The pattern of the offending input, for a negative-number error.
    pub fn negative_input(&self) -> (r: Option<u64>)
        ensures
            match self {
                SqrtError::NegativeNumber(x) => r == Some(*x),
                SqrtError::ExecutionFault => r is None,
            },
    {
        match self {
            SqrtError::NegativeNumber(x) => Some(*x),
            SqrtError::ExecutionFault => None,
        }
    }
}

} // verus!
