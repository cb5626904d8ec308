//! Per-line outcomes.
//!
//! Exactly one outcome is produced for each input line.  The spec functions
//! here pin each outcome down as a function of the line's characters, through
//! the names of [`crate::engine`]; both execution strategies are proved to
//! return these same outcomes, which is what makes them interchangeable.

use vstd::prelude::*;

use crate::engine;
use crate::engine::{
    automorphism_count_of, canonical_text_of, capped_count_of, line_canonicalizes, line_parses,
    line_solves_uniquely, parse_error_text_of, parsed_text_of, solution_text_of,
};

verus! {

/// The spec texts of a vector of lines.
pub open spec fn line_views(lines: Seq<String>) -> Seq<Seq<char>> {
    lines.map_values(|l: String| l@)
}

/// Result of processing one line under the solve verb.
pub enum SolveOutcome {
    /// The line parsed and has exactly one solution: its rendering.
    Solved(String),
    /// The line parsed but has zero or several solutions: the rendering of
    /// the original grid.
    NoUnique(String),
    /// The line did not parse: the parse error's message.
    Malformed(String),
}

/// Spec-level value of a [`SolveOutcome`]: the same shape over character
/// sequences.
pub enum SolveOutcomeSpec {
    Solved(Seq<char>),
    NoUnique(Seq<char>),
    Malformed(Seq<char>),
}

impl View for SolveOutcome {
    type V = SolveOutcomeSpec;

    open spec fn view(&self) -> SolveOutcomeSpec {
        match self {
            SolveOutcome::Solved(s) => SolveOutcomeSpec::Solved(s@),
            SolveOutcome::NoUnique(s) => SolveOutcomeSpec::NoUnique(s@),
            SolveOutcome::Malformed(s) => SolveOutcomeSpec::Malformed(s@),
        }
    }
}

/// The one outcome the solve verb owes a line.
pub open spec fn spec_solve_outcome(line: Seq<char>) -> SolveOutcomeSpec {
    if !line_parses(line) {
        SolveOutcomeSpec::Malformed(parse_error_text_of(line))
    } else if line_solves_uniquely(line) {
        SolveOutcomeSpec::Solved(solution_text_of(line))
    } else {
        SolveOutcomeSpec::NoUnique(parsed_text_of(line))
    }
}

/// Parses one line and asks the engine for its unique solution.
pub fn solve_one_line(line: &str) -> (r: SolveOutcome)
    ensures
        r@ == spec_solve_outcome(line@),
{
    match engine::parse_line(line) {
        Ok(p) => match engine::solution_line(&p) {
            Some(s) => SolveOutcome::Solved(s),
            None => SolveOutcome::NoUnique(engine::parsed_text(&p)),
        },
        Err(e) => SolveOutcome::Malformed(e),
    }
}

/// Result of processing one line under the statistics verb.
pub enum CountOutcome {
    /// The line parsed: its number of solutions, capped at 2.
    Counted(u8),
    /// The line did not parse: the parse error's message.
    Malformed(String),
}

/// Spec-level value of a [`CountOutcome`].
pub enum CountOutcomeSpec {
    Counted(nat),
    Malformed(Seq<char>),
}

impl View for CountOutcome {
    type V = CountOutcomeSpec;

    open spec fn view(&self) -> CountOutcomeSpec {
        match self {
            CountOutcome::Counted(n) => CountOutcomeSpec::Counted(*n as nat),
            CountOutcome::Malformed(s) => CountOutcomeSpec::Malformed(s@),
        }
    }
}

/// The one outcome the statistics verb owes a line.
pub open spec fn spec_count_outcome(line: Seq<char>) -> CountOutcomeSpec {
    if line_parses(line) {
        CountOutcomeSpec::Counted(capped_count_of(line))
    } else {
        CountOutcomeSpec::Malformed(parse_error_text_of(line))
    }
}

/// Parses one line and asks the engine to count its solutions up to 2.
pub fn count_one_line(line: &str) -> (r: CountOutcome)
    ensures
        r@ == spec_count_outcome(line@),
        r matches CountOutcome::Counted(n) ==> n <= 2,
{
    match engine::parse_line(line) {
        Ok(p) => CountOutcome::Counted(engine::count_up_to_two(&p)),
        Err(e) => CountOutcome::Malformed(e),
    }
}

/// Result of processing one line under the canonicalize verb.
pub enum CanonOutcome {
    /// The line parsed and is uniquely solvable: the canonical form's
    /// rendering and its automorphism count.
    Canonical(String, usize),
    /// The line parsed but is not uniquely solvable: the rendering of the
    /// original grid.
    NotCanonical(String),
    /// The line did not parse: the parse error's message.
    Malformed(String),
}

/// Spec-level value of a [`CanonOutcome`].
pub enum CanonOutcomeSpec {
    Canonical(Seq<char>, nat),
    NotCanonical(Seq<char>),
    Malformed(Seq<char>),
}

impl View for CanonOutcome {
    type V = CanonOutcomeSpec;

    open spec fn view(&self) -> CanonOutcomeSpec {
        match self {
            CanonOutcome::Canonical(s, n) => CanonOutcomeSpec::Canonical(s@, *n as nat),
            CanonOutcome::NotCanonical(s) => CanonOutcomeSpec::NotCanonical(s@),
            CanonOutcome::Malformed(s) => CanonOutcomeSpec::Malformed(s@),
        }
    }
}

/// The one outcome the canonicalize verb owes a line.
pub open spec fn spec_canon_outcome(line: Seq<char>) -> CanonOutcomeSpec {
    if !line_parses(line) {
        CanonOutcomeSpec::Malformed(parse_error_text_of(line))
    } else if line_canonicalizes(line) {
        CanonOutcomeSpec::Canonical(canonical_text_of(line), automorphism_count_of(line))
    } else {
        CanonOutcomeSpec::NotCanonical(parsed_text_of(line))
    }
}

/// Parses one line and asks the engine for its canonical form.
pub fn canonicalize_one_line(line: &str) -> (r: CanonOutcome)
    ensures
        r@ == spec_canon_outcome(line@),
{
    match engine::parse_line(line) {
        Ok(p) => match engine::canonical_form(&p) {
            Some((text, autos)) => CanonOutcome::Canonical(text, autos),
            None => CanonOutcome::NotCanonical(engine::parsed_text(&p)),
        },
        Err(e) => CanonOutcome::Malformed(e),
    }
}

/// What the engine guarantees of every generated puzzle's line rendering:
/// one character per cell, it parses back, and the grid is uniquely
/// solvable — fully filled with digits when a solved grid was asked for.
pub open spec fn spec_generated_line_ok(s: Seq<char>, solved: bool) -> bool {
    &&& s.len() == 81
    &&& line_parses(s)
    &&& line_solves_uniquely(s)
    &&& (solved ==> forall|j: int| 0 <= j < s.len() ==> '1' <= #[trigger] s[j] <= '9')
}

/// Generates one puzzle and renders it in the requested form.  Which puzzle
/// comes out is random; what is stated is what holds of every one: the line
/// form satisfies [`spec_generated_line_ok`], and the block form is never
/// empty.
pub fn generate_one(solved: bool, block: bool) -> (r: String)
    ensures
        !block ==> spec_generated_line_ok(r@, solved),
        block ==> r@.len() > 0,
{
    if block {
        engine::generate_block_text(solved)
    } else {
        engine::generate_line_text(solved)
    }
}

} // verus!
