//! The execution strategy: sequential or parallel.
//!
//! A strategy is a stateless policy chosen once per invocation.  Both
//! variants implement the same batch operations with the same contracts: one
//! outcome per input line, pinned to [`spec_solve_outcome`] /
//! [`spec_count_outcome`] at the line's own index.  Because the contracts do
//! not mention the strategy, parallelism can change neither the content nor
//! the order of the output — only, possibly, the speed.

use vstd::prelude::*;

use crate::outcome;
use crate::outcome::{
    spec_count_outcome, spec_generated_line_ok, spec_solve_outcome, CountOutcome, CountOutcomeSpec,
    SolveOutcome, SolveOutcomeSpec,
};
use crate::parallel;

verus! {

/// How a batch is executed: one line at a time, or on a worker pool.
#[derive(Clone, Copy, PartialEq, Eq, Structural, Debug)]
pub enum Strategy {
    Sequential,
    Parallel,
}

/// The strategy the flag pair resolves to: each flag forces its variant, and
/// with neither flag the build-time default decides.
pub open spec fn spec_selected_strategy(
    parallel: bool,
    no_parallel: bool,
    default_parallel: bool,
) -> Strategy {
    let resolved = if !parallel && !no_parallel {
        default_parallel
    } else {
        parallel
    };
    if resolved {
        Strategy::Parallel
    } else {
        Strategy::Sequential
    }
}

/// Resolves the mutually exclusive `parallel` / `no-parallel` overrides
/// against the compiled-in default, once per invocation.
pub fn select_strategy(parallel: bool, no_parallel: bool, default_parallel: bool) -> (r: Strategy)
    ensures
        r == spec_selected_strategy(parallel, no_parallel, default_parallel),
{
    let resolved = if !parallel && !no_parallel {
        default_parallel
    } else {
        parallel
    };
    if resolved {
        Strategy::Parallel
    } else {
        Strategy::Sequential
    }
}

impl Strategy {
    /// Solves every line of the batch: one outcome per line, in input order,
    /// the same under either strategy.
    pub fn solve_lines(&self, lines: &Vec<String>) -> (r: Vec<SolveOutcome>)
        ensures
            r@.len() == lines@.len(),
            forall|i: int| 0 <= i < r@.len() ==> r@[i]@ == spec_solve_outcome(lines@[i]@),
    {
        match self {
            Strategy::Sequential => {
                let mut out: Vec<SolveOutcome> = Vec::new();
                let n = lines.len();
                for k in 0..n
                    invariant
                        n == lines@.len(),
                        out@.len() == k,
                        forall|i: int| 0 <= i < k ==> out@[i]@ == spec_solve_outcome(lines@[i]@),
                {
                    let o = outcome::solve_one_line(lines[k].as_str());
                    out.push(o);
                }
                out
            },
            Strategy::Parallel => parallel::par_solve_lines(lines),
        }
    }

    /// Counts the solutions of every line of the batch, capped at 2: one
    /// outcome per line, in input order, the same under either strategy.
    pub fn count_lines(&self, lines: &Vec<String>) -> (r: Vec<CountOutcome>)
        ensures
            r@.len() == lines@.len(),
            forall|i: int| 0 <= i < r@.len() ==> r@[i]@ == spec_count_outcome(lines@[i]@),
            forall|i: int|
                0 <= i < r@.len() ==> (#[trigger] r@[i]@ matches CountOutcomeSpec::Counted(n) ==> n <= 2),
    {
        match self {
            Strategy::Sequential => {
                let mut out: Vec<CountOutcome> = Vec::new();
                let n = lines.len();
                for k in 0..n
                    invariant
                        n == lines@.len(),
                        out@.len() == k,
                        forall|i: int| 0 <= i < k ==> out@[i]@ == spec_count_outcome(lines@[i]@),
                        forall|i: int|
                            0 <= i < k ==> (#[trigger] out@[i]@ matches CountOutcomeSpec::Counted(n)
                                ==> n <= 2),
                {
                    let o = outcome::count_one_line(lines[k].as_str());
                    out.push(o);
                }
                out
            },
            Strategy::Parallel => parallel::par_count_lines(lines),
        }
    }

    /// Generates `count` puzzles and renders each one: exactly `count`
    /// renderings under either strategy, each a rendering the engine owes a
    /// generated puzzle (see [`spec_generated_line_ok`]).  Generation has no
    /// input order to preserve.
    pub fn generate_texts(&self, count: usize, solved: bool, block: bool) -> (r: Vec<String>)
        ensures
            r@.len() == count as int,
            !block ==> forall|i: int|
                0 <= i < r@.len() ==> spec_generated_line_ok(#[trigger] r@[i]@, solved),
            block ==> forall|i: int| 0 <= i < r@.len() ==> r@[i]@.len() > 0,
    {
        match self {
            Strategy::Sequential => {
                let mut out: Vec<String> = Vec::new();
                for k in 0..count
                    invariant
                        out@.len() == k,
                        !block ==> forall|i: int|
                            0 <= i < k ==> spec_generated_line_ok(#[trigger] out@[i]@, solved),
                        block ==> forall|i: int| 0 <= i < k ==> out@[i]@.len() > 0,
                {
                    let text = outcome::generate_one(solved, block);
                    out.push(text);
                }
                out
            },
            Strategy::Parallel => parallel::par_generate(count, solved, block),
        }
    }
}

/// Strategy equivalence: two outcome sequences that each pair every input
/// line with its one owed outcome — as both [`Strategy::solve_lines`]
/// variants ensure — are the same sequence, element for element.
pub proof fn lemma_strategy_equivalence(
    lines: Seq<Seq<char>>,
    a: Seq<SolveOutcomeSpec>,
    b: Seq<SolveOutcomeSpec>,
)
    requires
        a.len() == lines.len(),
        forall|i: int| 0 <= i < a.len() ==> a[i] == spec_solve_outcome(lines[i]),
        b.len() == lines.len(),
        forall|i: int| 0 <= i < b.len() ==> b[i] == spec_solve_outcome(lines[i]),
    ensures
        a == b,
{
    assert(a =~= b);
}

/// The same equivalence for the statistics verb's outcomes.
pub proof fn lemma_count_equivalence(
    lines: Seq<Seq<char>>,
    a: Seq<CountOutcomeSpec>,
    b: Seq<CountOutcomeSpec>,
)
    requires
        a.len() == lines.len(),
        forall|i: int| 0 <= i < a.len() ==> a[i] == spec_count_outcome(lines[i]),
        b.len() == lines.len(),
        forall|i: int| 0 <= i < b.len() ==> b[i] == spec_count_outcome(lines[i]),
    ensures
        a == b,
{
    assert(a =~= b);
}

} // verus!
