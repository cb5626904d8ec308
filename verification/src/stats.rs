//! Run statistics: the single-pass reducer over a stream of count outcomes.
//!
//! Each outcome falls in exactly one class — solved (one solution),
//! non-unique (several), invalid (none, or a parse failure) — and the three
//! counters partition the batch, so `total == solved + non_unique + invalid`
//! holds of every run.  A fresh accumulator is made per batch; the elapsed
//! time is attached once, after the last outcome, and only when requested.

use vstd::prelude::*;

use crate::clock;
use crate::outcome::{line_views, spec_count_outcome, CountOutcome, CountOutcomeSpec};
use crate::render;
use crate::strategy::Strategy;

verus! {

/// An outcome counted as solved: exactly one solution.
pub open spec fn is_solved_outcome(o: CountOutcomeSpec) -> bool {
    o matches CountOutcomeSpec::Counted(n) && n == 1
}

/// An outcome counted as non-unique: more than one solution.
pub open spec fn is_non_unique_outcome(o: CountOutcomeSpec) -> bool {
    o matches CountOutcomeSpec::Counted(n) && n >= 2
}

/// An outcome counted as invalid: no solution, or a line that did not parse.
pub open spec fn is_invalid_outcome(o: CountOutcomeSpec) -> bool {
    match o {
        CountOutcomeSpec::Counted(n) => n == 0,
        CountOutcomeSpec::Malformed(_) => true,
    }
}

/// How many outcomes of the sequence are counted as solved.
pub open spec fn spec_solved_count(s: Seq<CountOutcomeSpec>) -> nat
    decreases s.len(),
{
    if s.len() == 0 {
        0
    } else {
        spec_solved_count(s.drop_last()) + (if is_solved_outcome(s.last()) {
            1nat
        } else {
            0nat
        })
    }
}

/// How many outcomes of the sequence are counted as non-unique.
pub open spec fn spec_non_unique_count(s: Seq<CountOutcomeSpec>) -> nat
    decreases s.len(),
{
    if s.len() == 0 {
        0
    } else {
        spec_non_unique_count(s.drop_last()) + (if is_non_unique_outcome(s.last()) {
            1nat
        } else {
            0nat
        })
    }
}

/// How many outcomes of the sequence are counted as invalid.
pub open spec fn spec_invalid_count(s: Seq<CountOutcomeSpec>) -> nat
    decreases s.len(),
{
    if s.len() == 0 {
        0
    } else {
        spec_invalid_count(s.drop_last()) + (if is_invalid_outcome(s.last()) {
            1nat
        } else {
            0nat
        })
    }
}

/// Totals of one batch: created fresh per batch, finalized once.
pub struct RunStatistics {
    /// Lines whose grid has exactly one solution.
    pub solved: usize,
    /// Lines whose grid has more than one solution.
    pub non_unique: usize,
    /// Lines with no solution or that did not parse.
    pub invalid: usize,
    /// All lines of the batch.
    pub total: usize,
    /// Wall-clock time of the batch in nanoseconds, when it was measured.
    pub elapsed_nanos: Option<u64>,
}

impl RunStatistics {
    /// The counters partition the batch.
    pub open spec fn wf(&self) -> bool {
        self.total == self.solved + self.non_unique + self.invalid
    }
}

/// Reduces a stream of count outcomes to its totals, in one pass.
pub fn aggregate_outcomes(outcomes: &Vec<CountOutcome>) -> (r: RunStatistics)
    ensures
        r.solved == spec_solved_count(outcome_views(outcomes@)),
        r.non_unique == spec_non_unique_count(outcome_views(outcomes@)),
        r.invalid == spec_invalid_count(outcome_views(outcomes@)),
        r.total == outcomes@.len(),
        r.wf(),
        r.elapsed_nanos is None,
{
    let ghost m = outcome_views(outcomes@);
    let mut solved: usize = 0;
    let mut non_unique: usize = 0;
    let mut invalid: usize = 0;
    let n = outcomes.len();
    proof {
        lemma_statistics_partition(m);
    }
    for k in 0..n
        invariant
            n == outcomes@.len(),
            m == outcome_views(outcomes@),
            solved == spec_solved_count(m.subrange(0, k as int)),
            non_unique == spec_non_unique_count(m.subrange(0, k as int)),
            invalid == spec_invalid_count(m.subrange(0, k as int)),
            solved + non_unique + invalid == k,
    {
        proof {
            assert(m.subrange(0, k + 1).drop_last() =~= m.subrange(0, k as int));
            assert(m.subrange(0, k + 1).last() == m[k as int]);
        }
        match &outcomes[k] {
            CountOutcome::Counted(c) => {
                if *c == 0 {
                    invalid = invalid + 1;
                } else if *c == 1 {
                    solved = solved + 1;
                } else {
                    non_unique = non_unique + 1;
                }
            },
            CountOutcome::Malformed(_) => {
                invalid = invalid + 1;
            },
        }
    }
    proof {
        assert(m.subrange(0, n as int) =~= m);
    }
    let total = solved + non_unique + invalid;
    RunStatistics { solved, non_unique, invalid, total, elapsed_nanos: None }
}

/// The spec values of a vector of count outcomes.
pub open spec fn outcome_views(s: Seq<CountOutcome>) -> Seq<CountOutcomeSpec> {
    s.map_values(|o: CountOutcome| o@)
}

/// The count outcomes every line of a batch is owed.
pub open spec fn spec_count_outcomes_of(lines: Seq<Seq<char>>) -> Seq<CountOutcomeSpec> {
    lines.map_values(|l: Seq<char>| spec_count_outcome(l))
}

/// The error-channel lines a stream of count outcomes owes: one marked
/// parse-error line per malformed outcome, in input order.
pub open spec fn spec_outcome_error_lines(s: Seq<CountOutcomeSpec>) -> Seq<Seq<char>>
    decreases s.len(),
{
    if s.len() == 0 {
        Seq::empty()
    } else {
        spec_outcome_error_lines(s.drop_last()) + (match s.last() {
            CountOutcomeSpec::Malformed(msg) => seq![render::spec_error_marker() + msg],
            CountOutcomeSpec::Counted(_) => Seq::empty(),
        })
    }
}

/// The error lines owed to a batch's outcomes are the error lines owed to
/// the batch itself: a line's outcome is malformed exactly when the line is.
pub proof fn lemma_error_lines_from_outcomes(lines: Seq<Seq<char>>)
    ensures
        spec_outcome_error_lines(spec_count_outcomes_of(lines)) == render::spec_error_lines(lines),
    decreases lines.len(),
{
    if lines.len() > 0 {
        lemma_error_lines_from_outcomes(lines.drop_last());
        assert(spec_count_outcomes_of(lines).drop_last() =~= spec_count_outcomes_of(
            lines.drop_last(),
        ));
        assert(spec_count_outcomes_of(lines).last() == spec_count_outcome(lines.last()));
    } else {
        assert(spec_count_outcomes_of(lines).len() == 0);
    }
}

/// Surfaces the parse errors of a stream of count outcomes to the error
/// channel, each behind the fixed error marker.
pub fn outcome_error_lines(outcomes: &Vec<CountOutcome>) -> (r: Vec<String>)
    ensures
        line_views(r@) == spec_outcome_error_lines(outcome_views(outcomes@)),
{
    let ghost m = outcome_views(outcomes@);
    let mut errs: Vec<String> = Vec::new();
    let n = outcomes.len();
    proof {
        assert(m.subrange(0, 0) =~= Seq::<CountOutcomeSpec>::empty());
        assert(line_views(errs@) =~= spec_outcome_error_lines(m.subrange(0, 0)));
    }
    for k in 0..n
        invariant
            n == outcomes@.len(),
            m == outcome_views(outcomes@),
            line_views(errs@) == spec_outcome_error_lines(m.subrange(0, k as int)),
    {
        proof {
            assert(m.subrange(0, k + 1).drop_last() =~= m.subrange(0, k as int));
            assert(m.subrange(0, k + 1).last() == m[k as int]);
        }
        match &outcomes[k] {
            CountOutcome::Counted(_) => {},
            CountOutcome::Malformed(msg) => {
                let line = render::error_line(msg.as_str());
                proof {
                    assert(line_views(errs@.push(line)) =~= line_views(errs@) + seq![line@]);
                }
                errs.push(line);
            },
        }
        proof {
            assert(line_views(errs@) =~= spec_outcome_error_lines(m.subrange(0, k + 1)));
        }
    }
    proof {
        assert(m.subrange(0, n as int) =~= m);
    }
    errs
}

/// Runs the statistics verb over one batch: counts the solutions of every
/// line under the given strategy, reduces the outcomes to totals, and
/// surfaces each parse error to the error channel rather than dropping it.
/// The counters are pinned to the batch's owed outcomes — so `total` equals
/// the number of input lines — and the elapsed time is present exactly when
/// its measurement was requested.
pub fn collect_run_statistics(strategy: &Strategy, lines: &Vec<String>, measure_time: bool) -> (r: (
    RunStatistics,
    Vec<String>,
))
    ensures
        r.0.solved == spec_solved_count(spec_count_outcomes_of(line_views(lines@))),
        r.0.non_unique == spec_non_unique_count(spec_count_outcomes_of(line_views(lines@))),
        r.0.invalid == spec_invalid_count(spec_count_outcomes_of(line_views(lines@))),
        r.0.total == lines@.len(),
        r.0.wf(),
        r.0.elapsed_nanos is Some <==> measure_time,
        line_views(r.1@) == render::spec_error_lines(line_views(lines@)),
{
    let start = if measure_time {
        Some(clock::monotonic_now())
    } else {
        None
    };
    let outcomes = strategy.count_lines(lines);
    let mut stats = aggregate_outcomes(&outcomes);
    if let Some(t) = start {
        stats.elapsed_nanos = Some(clock::elapsed_nanos(&t));
    }
    let errs = outcome_error_lines(&outcomes);
    proof {
        assert(outcome_views(outcomes@) =~= spec_count_outcomes_of(line_views(lines@)));
        lemma_error_lines_from_outcomes(line_views(lines@));
    }
    (stats, errs)
}

/// Statistics invariant: the three classes partition every outcome stream,
/// so the solved, non-unique and invalid counters of a run always sum to its
/// total.
pub proof fn lemma_statistics_partition(outcomes: Seq<CountOutcomeSpec>)
    ensures
        spec_solved_count(outcomes) + spec_non_unique_count(outcomes) + spec_invalid_count(outcomes)
            == outcomes.len(),
    decreases outcomes.len(),
{
    if outcomes.len() > 0 {
        lemma_statistics_partition(outcomes.drop_last());
    }
}

/// Malformed-line tolerance: one more outcome moves exactly one counter, the
/// counter of its own class, by exactly one — an invalid line (malformed or
/// unsolvable) is counted and leaves the other counters, and so the handling
/// of every other line, unchanged.
pub proof fn lemma_one_more_outcome(outcomes: Seq<CountOutcomeSpec>, next: CountOutcomeSpec)
    ensures
        spec_solved_count(outcomes.push(next)) == spec_solved_count(outcomes) + (
        if is_solved_outcome(next) {
            1nat
        } else {
            0nat
        }),
        spec_non_unique_count(outcomes.push(next)) == spec_non_unique_count(outcomes) + (
        if is_non_unique_outcome(next) {
            1nat
        } else {
            0nat
        }),
        spec_invalid_count(outcomes.push(next)) == spec_invalid_count(outcomes) + (
        if is_invalid_outcome(next) {
            1nat
        } else {
            0nat
        }),
{
    assert(outcomes.push(next).drop_last() =~= outcomes);
    assert(outcomes.push(next).last() == next);
}

} // verus!
