//! Trusted boundary to the puzzle engine (the `sudoku` crate).
//!
//! Everything the engine computes is deterministic in the text of the input
//! line — `Sudoku::from_str_line`, `Sudoku::solution`,
//! `Sudoku::solutions_count_up_to` and `Sudoku::canonicalized` are pure
//! functions of the parsed grid, and the grid is a pure function of the line —
//! so each engine result is given a name: an uninterpreted spec function of
//! the line's characters.  The wrappers below promise exactly that their
//! results equal those named values.  Generation and shuffling are random,
//! so no particular grid can be promised; what is stated of them is what
//! holds of every outcome — the shape of the rendering, and for generation
//! that the grid is uniquely solvable.

use vstd::prelude::*;

verus! {

#[verifier::external_type_specification]
#[verifier::external_body]
pub struct ExSudoku(sudoku::Sudoku);

/// Whether `Sudoku::from_str_line` accepts the line.
pub uninterp spec fn line_parses(line: Seq<char>) -> bool;

/// The rendered message of the `LineParseError` that `Sudoku::from_str_line`
/// returns for a line it rejects.
pub uninterp spec fn parse_error_text_of(line: Seq<char>) -> Seq<char>;

/// Whether `Sudoku::solution` finds exactly one solution for the parsed line.
pub uninterp spec fn line_solves_uniquely(line: Seq<char>) -> bool;

/// The line rendering of the unique solution that `Sudoku::solution` returns.
pub uninterp spec fn solution_text_of(line: Seq<char>) -> Seq<char>;

/// The line rendering (`Sudoku`'s `Display`) of the grid parsed from the line:
/// the line itself with every empty-cell mark normalized to `'.'` and any
/// trailing comment dropped.
pub uninterp spec fn parsed_text_of(line: Seq<char>) -> Seq<char>;

/// The result of `Sudoku::solutions_count_up_to(2)` on the parsed line.
pub uninterp spec fn capped_count_of(line: Seq<char>) -> nat;

/// Whether `Sudoku::canonicalized` succeeds on the parsed line, that is,
/// whether the parsed grid is uniquely solvable.
pub uninterp spec fn line_canonicalizes(line: Seq<char>) -> bool;

/// The line rendering of the canonical form that `Sudoku::canonicalized`
/// returns for the parsed line.
pub uninterp spec fn canonical_text_of(line: Seq<char>) -> Seq<char>;

/// The automorphism count that `Sudoku::canonicalized` returns beside the
/// canonical form.
pub uninterp spec fn automorphism_count_of(line: Seq<char>) -> nat;

/// A grid the engine parsed from one input line, kept together with that
/// line's text.  The pairing is established only by [`parse_line`], so every
/// engine result obtained through a `ParsedLine` is a function of
/// `line_text()`; the fields are private to keep it that way.
pub struct ParsedLine {
    text: String,
    grid: sudoku::Sudoku,
}

impl ParsedLine {
    /// The text of the input line this grid was parsed from.
    pub closed spec fn line_text(&self) -> Seq<char> {
        self.text@
    }
}

/// A grid no longer tied to an input line: generated, or mutated by
/// shuffling.  Nothing is known of its cells.
pub struct OwnedPuzzle {
    grid: sudoku::Sudoku,
}

/// Relies on `Sudoku::from_str_line`, which accepts or rejects a line by its
/// text alone, and on `LineParseError`'s `Display`, which renders the error
/// deterministically.
#[verifier::external_body]
pub(crate) fn parse_line(line: &str) -> (r: Result<ParsedLine, String>)
    ensures
        r is Ok <==> line_parses(line@),
        r matches Ok(p) ==> p.line_text() == line@,
        r matches Err(e) ==> e@ == parse_error_text_of(line@),
{
    match sudoku::Sudoku::from_str_line(line) {
        Ok(grid) => Ok(ParsedLine { text: line.to_string(), grid }),
        Err(e) => Err(e.to_string()),
    }
}

/// Relies on `Sudoku::solution`, which returns the solution exactly when it
/// is unique, and on `Sudoku`'s `Display` for the solution's line rendering.
#[verifier::external_body]
pub(crate) fn solution_line(p: &ParsedLine) -> (r: Option<String>)
    ensures
        r is Some <==> line_solves_uniquely(p.line_text()),
        r matches Some(s) ==> s@ == solution_text_of(p.line_text()),
{
    p.grid.solution().map(|s| s.to_string())
}

/// Relies on `Sudoku`'s `Display`, which renders the grid as its 81-character
/// line form.
#[verifier::external_body]
pub(crate) fn parsed_text(p: &ParsedLine) -> (r: String)
    ensures
        r@ == parsed_text_of(p.line_text()),
{
    p.grid.to_string()
}

/// Relies on `Sudoku::solutions_count_up_to`, which counts solutions and
/// stops at the given cap, so with cap 2 it returns at most 2.
#[verifier::external_body]
pub(crate) fn count_up_to_two(p: &ParsedLine) -> (r: u8)
    ensures
        r as nat == capped_count_of(p.line_text()),
        r <= 2,
{
    p.grid.solutions_count_up_to(2) as u8
}

/// Relies on `Sudoku::canonicalized`, which succeeds exactly on uniquely
/// solvable grids, and on `Sudoku`'s `Display` for the canonical rendering.
#[verifier::external_body]
pub(crate) fn canonical_form(p: &ParsedLine) -> (r: Option<(String, usize)>)
    ensures
        r is Some <==> line_canonicalizes(p.line_text()),
        r matches Some(c) ==> c.0@ == canonical_text_of(p.line_text())
            && c.1 as nat == automorphism_count_of(p.line_text()),
{
    p.grid.canonicalized().map(|(c, n)| (c.to_string(), n))
}

/// Frees the grid from its line, for work that mutates it.
pub(crate) fn release_grid(p: ParsedLine) -> OwnedPuzzle {
    OwnedPuzzle { grid: p.grid }
}

/// Relies on `Sudoku::generate` and `Sudoku::generate_solved`, which return
/// a random uniquely solvable puzzle (a solved grid when `solved` is set),
/// and on `Sudoku`'s `Display`, whose 81-character line form parses back to
/// the same grid.  Which grid comes back is random; that every outcome is
/// uniquely solvable — and fully filled with digits when `solved` is set —
/// is what the engine promises of all of them.
#[verifier::external_body]
pub(crate) fn generate_line_text(solved: bool) -> (r: String)
    ensures
        r@.len() == 81,
        line_parses(r@),
        line_solves_uniquely(r@),
        solved ==> forall|i: int| 0 <= i < r@.len() ==> '1' <= #[trigger] r@[i] <= '9',
{
    if solved {
        sudoku::Sudoku::generate_solved().to_string()
    } else {
        sudoku::Sudoku::generate().to_string()
    }
}

/// Relies on `Sudoku::generate` and `Sudoku::generate_solved` as
/// [`generate_line_text`] does, and on `Sudoku::display_block` and
/// `SudokuBlock`'s `Display`, which render the grid as a 9-row block of at
/// least one character.
#[verifier::external_body]
pub(crate) fn generate_block_text(solved: bool) -> (r: String)
    ensures
        r@.len() > 0,
{
    if solved {
        sudoku::Sudoku::generate_solved().display_block().to_string()
    } else {
        sudoku::Sudoku::generate().display_block().to_string()
    }
}

/// Relies on `Sudoku::shuffle`, which applies a random validity-preserving
/// transformation in place; nothing can be promised of a random result.
#[verifier::external_body]
pub(crate) fn shuffle_puzzle(p: &mut OwnedPuzzle) {
    p.grid.shuffle();
}

/// Relies on `Sudoku`'s `Display`, whose line form is one character per cell
/// of the 9 x 9 grid.
#[verifier::external_body]
pub(crate) fn puzzle_line_text(p: &OwnedPuzzle) -> (r: String)
    ensures
        r@.len() == 81,
{
    p.grid.to_string()
}

} // verus!
