//! Batches: a sequence of inputs is accepted as a whole or rejected at its
//! first negative element.

use vstd::prelude::*;

use crate::error::SqrtError;
use crate::ieee::below_zero;
use crate::solver::{start, start_of, Start};

verus! {

/// `i` is the position of the first element of `xs` that compares below zero.
pub open spec fn first_negative_at(xs: Seq<u64>, i: int) -> bool {
    &&& 0 <= i < xs.len()
    &&& below_zero(xs[i])
    &&& forall|j: int| 0 <= j < i ==> !below_zero(#[trigger] xs[j])
}

/// Decides, in order, how the root of each element of `xs` is had, and stops
/// at the first element that compares below zero: the batch then fails with
/// that element's error and no element after it is looked at.
pub fn plan_batch(xs: &Vec<u64>) -> (r: Result<Vec<Start>, SqrtError>)
    ensures
        r is Ok <==> forall|i: int| 0 <= i < xs@.len() ==> !below_zero(#[trigger] xs@[i]),
        r matches Ok(plan) ==> plan@.len() == xs@.len() && forall|i: int|
            0 <= i < xs@.len() ==> Ok::<Start, SqrtError>(#[trigger] plan@[i]) == start_of(xs@[i]),
        r matches Err(e) ==> exists|i: int|
            first_negative_at(xs@, i) && e == SqrtError::NegativeNumber(#[trigger] xs@[i]),
{
    let mut plan: Vec<Start> = Vec::new();
    let mut k: usize = 0;
    while k < xs.len()
        invariant
            k <= xs@.len(),
            plan@.len() == k,
            forall|j: int| 0 <= j < k ==> !below_zero(#[trigger] xs@[j]),
            forall|j: int|
                0 <= j < k ==> Ok::<Start, SqrtError>(#[trigger] plan@[j]) == start_of(xs@[j]),
        decreases xs@.len() - k,
    {
        match start(xs[k]) {
            Ok(s) => {
                plan.push(s);
            },
            Err(e) => {
                assert(first_negative_at(xs@, k as int));
                return Err(e);
            },
        }
        k = k + 1;
    }
    Ok(plan)
}

} // verus!
