//! One function per verb: the whole processing of one batch, from input
//! lines to the exact output text each line is owed.
//!
//! Per-line errors never pass the line boundary: a malformed line becomes
//! one line on the error channel and processing continues, so the output
//! channels of a batch are pinned functions of its input lines (up to the
//! randomness of shuffling and generation, where only shape and count can be
//! stated).

use vstd::prelude::*;

use crate::engine;
use crate::engine::line_parses;
use crate::outcome;
use crate::outcome::{line_views, spec_canon_outcome, spec_solve_outcome, CanonOutcome};
use crate::render;
use crate::render::{spec_canon_line, spec_error_lines, spec_solve_line};
use crate::strategy::Strategy;

verus! {

/// The solve verb's output lines: one per input line, in input order.
pub open spec fn spec_solve_out_lines(lines: Seq<Seq<char>>) -> Seq<Seq<char>> {
    lines.map_values(|l: Seq<char>| spec_solve_line(spec_solve_outcome(l)))
}

/// How many lines of a batch the engine parses.
pub open spec fn spec_parsing_count(lines: Seq<Seq<char>>) -> nat
    decreases lines.len(),
{
    if lines.len() == 0 {
        0
    } else {
        spec_parsing_count(lines.drop_last()) + (if line_parses(lines.last()) {
            1nat
        } else {
            0nat
        })
    }
}

/// The canonicalize verb's output lines: one per parsed input line, in input
/// order; malformed lines yield none.
pub open spec fn spec_canon_out_lines(lines: Seq<Seq<char>>) -> Seq<Seq<char>>
    decreases lines.len(),
{
    if lines.len() == 0 {
        Seq::empty()
    } else {
        spec_canon_out_lines(lines.drop_last()) + (if line_parses(lines.last()) {
            seq![spec_canon_line(spec_canon_outcome(lines.last()))]
        } else {
            Seq::empty()
        })
    }
}

/// Runs the solve verb over one batch: under either strategy, exactly one
/// output line per input line, in input order — the solution, the original
/// plus the no-unique-solution marker, or the marked parse error.
pub fn solve_batch(strategy: &Strategy, lines: &Vec<String>) -> (r: Vec<String>)
    ensures
        line_views(r@) == spec_solve_out_lines(line_views(lines@)),
        r@.len() == lines@.len(),
{
    let outcomes = strategy.solve_lines(lines);
    let mut out: Vec<String> = Vec::new();
    let n = outcomes.len();
    for k in 0..n
        invariant
            n == outcomes@.len(),
            n == lines@.len(),
            forall|i: int| 0 <= i < n ==> outcomes@[i]@ == spec_solve_outcome(lines@[i]@),
            out@.len() == k,
            forall|i: int|
                0 <= i < k ==> out@[i]@ == spec_solve_line(spec_solve_outcome(lines@[i]@)),
    {
        let text = render::solve_line_text(&outcomes[k]);
        out.push(text);
    }
    proof {
        assert(line_views(out@) =~= spec_solve_out_lines(line_views(lines@)));
    }
    out
}

/// Runs the canonicalize verb over one batch: for each parsed line its
/// canonical form and automorphism count (or the not-solvable marker), and
/// for each malformed line one marked parse error on the error channel.
pub fn canonicalize_batch(lines: &Vec<String>) -> (r: (Vec<String>, Vec<String>))
    ensures
        line_views(r.0@) == spec_canon_out_lines(line_views(lines@)),
        line_views(r.1@) == spec_error_lines(line_views(lines@)),
{
    let ghost m = line_views(lines@);
    let mut out: Vec<String> = Vec::new();
    let mut errs: Vec<String> = Vec::new();
    let n = lines.len();
    proof {
        assert(m.subrange(0, 0) =~= Seq::<Seq<char>>::empty());
        assert(line_views(out@) =~= spec_canon_out_lines(m.subrange(0, 0)));
        assert(line_views(errs@) =~= spec_error_lines(m.subrange(0, 0)));
    }
    for k in 0..n
        invariant
            n == lines@.len(),
            m == line_views(lines@),
            line_views(out@) == spec_canon_out_lines(m.subrange(0, k as int)),
            line_views(errs@) == spec_error_lines(m.subrange(0, k as int)),
    {
        proof {
            assert(m.subrange(0, k + 1).drop_last() =~= m.subrange(0, k as int));
            assert(m.subrange(0, k + 1).last() == m[k as int]);
        }
        let o = outcome::canonicalize_one_line(lines[k].as_str());
        match o {
            CanonOutcome::Malformed(msg) => {
                let line = render::error_line(msg.as_str());
                proof {
                    assert(line_views(errs@.push(line)) =~= line_views(errs@) + seq![line@]);
                }
                errs.push(line);
            },
            _ => {
                let line = render::canon_line_text(&o);
                proof {
                    assert(line_views(out@.push(line)) =~= line_views(out@) + seq![line@]);
                }
                out.push(line);
            },
        }
        proof {
            assert(line_views(out@) =~= spec_canon_out_lines(m.subrange(0, k + 1)));
            assert(line_views(errs@) =~= spec_error_lines(m.subrange(0, k + 1)));
        }
    }
    proof {
        assert(m.subrange(0, n as int) =~= m);
    }
    (out, errs)
}

/// Runs the shuffle verb over one batch: each parsed line is shuffled
/// `count` times, one 81-character rendering per shuffle, and each malformed
/// line becomes one marked parse error on the error channel.  The shuffles
/// are random, so only the count and shape of the output are stated.
pub fn shuffle_batch(lines: &Vec<String>, count: usize) -> (r: (Vec<String>, Vec<String>))
    ensures
        r.0@.len() == count * spec_parsing_count(line_views(lines@)),
        forall|i: int| 0 <= i < r.0@.len() ==> r.0@[i]@.len() == 81,
        line_views(r.1@) == spec_error_lines(line_views(lines@)),
{
    let ghost m = line_views(lines@);
    let mut out: Vec<String> = Vec::new();
    let mut errs: Vec<String> = Vec::new();
    let n = lines.len();
    proof {
        assert(m.subrange(0, 0) =~= Seq::<Seq<char>>::empty());
        assert(line_views(errs@) =~= spec_error_lines(m.subrange(0, 0)));
        assert(spec_parsing_count(m.subrange(0, 0)) == 0);
        assert(count * spec_parsing_count(m.subrange(0, 0)) == 0) by (nonlinear_arith)
            requires
                spec_parsing_count(m.subrange(0, 0)) == 0,
        ;
    }
    for k in 0..n
        invariant
            n == lines@.len(),
            m == line_views(lines@),
            out@.len() == count * spec_parsing_count(m.subrange(0, k as int)),
            forall|i: int| 0 <= i < out@.len() ==> out@[i]@.len() == 81,
            line_views(errs@) == spec_error_lines(m.subrange(0, k as int)),
    {
        proof {
            assert(m.subrange(0, k + 1).drop_last() =~= m.subrange(0, k as int));
            assert(m.subrange(0, k + 1).last() == m[k as int]);
        }
        match engine::parse_line(lines[k].as_str()) {
            Ok(p) => {
                let ghost base = out@.len();
                let mut puzzle = engine::release_grid(p);
                for j in 0..count
                    invariant
                        out@.len() == base + j,
                        forall|i: int| 0 <= i < out@.len() ==> out@[i]@.len() == 81,
                {
                    engine::shuffle_puzzle(&mut puzzle);
                    let text = engine::puzzle_line_text(&puzzle);
                    out.push(text);
                }
                proof {
                    let pc = spec_parsing_count(m.subrange(0, k as int));
                    assert(count * (pc + 1) == count * pc + count) by (nonlinear_arith);
                    assert(out@.len() == count * spec_parsing_count(m.subrange(0, k + 1)));
                }
            },
            Err(msg) => {
                let line = render::error_line(msg.as_str());
                proof {
                    assert(line_views(errs@.push(line)) =~= line_views(errs@) + seq![line@]);
                }
                errs.push(line);
            },
        }
        proof {
            assert(line_views(errs@) =~= spec_error_lines(m.subrange(0, k + 1)));
        }
    }
    proof {
        assert(m.subrange(0, n as int) =~= m);
    }
    (out, errs)
}

} // verus!
