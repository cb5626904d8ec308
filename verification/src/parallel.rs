//! Trusted boundary to the worker pool (the `rayon` crate).
//!
//! Each wrapper hands a batch to `rayon` and maps every unit of work through
//! one verified per-line function of [`crate::outcome`].  The contracts
//! restate, element for element, what those verified functions already
//! ensure; the one fact taken on trust from `rayon` is that `collect` on an
//! indexed parallel iterator returns the results in the order of the inputs,
//! whatever order the workers finished in.

use vstd::prelude::*;

use rayon::iter::{IndexedParallelIterator, IntoParallelIterator, ParallelIterator};

use crate::outcome;
use crate::outcome::{
    spec_count_outcome, spec_generated_line_ok, spec_solve_outcome, CountOutcome, CountOutcomeSpec,
    SolveOutcome,
};

verus! {

/// Relies on `rayon`'s `par_iter` + `map` + `collect`, which keep input
/// order; every element is computed by the verified
/// [`outcome::solve_one_line`].
#[verifier::external_body]
pub(crate) fn par_solve_lines(lines: &Vec<String>) -> (r: Vec<SolveOutcome>)
    ensures
        r@.len() == lines@.len(),
        forall|i: int| 0 <= i < r@.len() ==> r@[i]@ == spec_solve_outcome(lines@[i]@),
{
    lines.into_par_iter().map(|line| outcome::solve_one_line(line)).collect()
}

/// Relies on `rayon`'s `par_iter` + `map` + `collect`, which keep input
/// order; every element is computed by the verified
/// [`outcome::count_one_line`], whose contract each clause restates.
#[verifier::external_body]
pub(crate) fn par_count_lines(lines: &Vec<String>) -> (r: Vec<CountOutcome>)
    ensures
        r@.len() == lines@.len(),
        forall|i: int| 0 <= i < r@.len() ==> r@[i]@ == spec_count_outcome(lines@[i]@),
        forall|i: int|
            0 <= i < r@.len() ==> (#[trigger] r@[i]@ matches CountOutcomeSpec::Counted(n) ==> n <= 2),
{
    lines.into_par_iter().map(|line| outcome::count_one_line(line)).collect()
}

/// Relies on `rayon`'s `into_par_iter` + `map` + `collect` over `0..count`,
/// which yield one element per unit of work; every element is computed by the
/// verified [`outcome::generate_one`], whose contract each clause restates.
#[verifier::external_body]
pub(crate) fn par_generate(count: usize, solved: bool, block: bool) -> (r: Vec<String>)
    ensures
        r@.len() == count as int,
        !block ==> forall|i: int|
            0 <= i < r@.len() ==> spec_generated_line_ok(#[trigger] r@[i]@, solved),
        block ==> forall|i: int| 0 <= i < r@.len() ==> r@[i]@.len() > 0,
{
    (0..count).into_par_iter().map(|_| outcome::generate_one(solved, block)).collect()
}

} // verus!
