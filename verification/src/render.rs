//! Rendering: per-line outcomes and aggregate rows as exact text.
//!
//! Two independent contracts, never mixed in a run: per-line rendering (a
//! solution line, the original plus a fixed marker, or a fixed error marker
//! plus the parse error's message) and aggregate rendering (right-justified
//! columns of the four counters, then seconds and throughput when timing was
//! measured, then the source path).  Times are kept in whole nanoseconds and
//! rendered in fixed point: seconds with three decimals, rounded to the
//! nearest millisecond, and throughput in puzzles per second, rounded to the
//! nearest whole number.

use vstd::prelude::*;

use crate::engine::{line_parses, parse_error_text_of};
use crate::outcome::{CanonOutcomeSpec, CanonOutcome, SolveOutcomeSpec, SolveOutcome};
use crate::stats::RunStatistics;

verus! {

/// The decimal digit character of a value below ten.
pub open spec fn spec_digit(d: nat) -> char {
    if d == 0 {
        '0'
    } else if d == 1 {
        '1'
    } else if d == 2 {
        '2'
    } else if d == 3 {
        '3'
    } else if d == 4 {
        '4'
    } else if d == 5 {
        '5'
    } else if d == 6 {
        '6'
    } else if d == 7 {
        '7'
    } else if d == 8 {
        '8'
    } else {
        '9'
    }
}

/// The decimal rendering of a number: no leading zeroes, except that zero
/// itself is `"0"`.
pub open spec fn spec_dec(n: nat) -> Seq<char>
    decreases n,
{
    if n < 10 {
        seq![spec_digit(n)]
    } else {
        spec_dec(n / 10) + seq![spec_digit(n % 10)]
    }
}

/// `n` copies of the character `c`.
pub open spec fn spec_repeat(c: char, n: nat) -> Seq<char>
    decreases n,
{
    if n == 0 {
        Seq::empty()
    } else {
        spec_repeat(c, (n - 1) as nat) + seq![c]
    }
}

/// `s` right-justified in a field of `width` characters; text wider than the
/// field stands as it is.
pub open spec fn spec_justify(s: Seq<char>, width: nat) -> Seq<char> {
    if s.len() >= width {
        s
    } else {
        spec_repeat(' ', (width - s.len()) as nat) + s
    }
}

fn digit_str(d: u8) -> (r: &'static str)
    requires
        d < 10,
    ensures
        r@ == seq![spec_digit(d as nat)],
{
    proof {
        reveal_strlit("0");
        reveal_strlit("1");
        reveal_strlit("2");
        reveal_strlit("3");
        reveal_strlit("4");
        reveal_strlit("5");
        reveal_strlit("6");
        reveal_strlit("7");
        reveal_strlit("8");
        reveal_strlit("9");
    }
    if d == 0 {
        "0"
    } else if d == 1 {
        "1"
    } else if d == 2 {
        "2"
    } else if d == 3 {
        "3"
    } else if d == 4 {
        "4"
    } else if d == 5 {
        "5"
    } else if d == 6 {
        "6"
    } else if d == 7 {
        "7"
    } else if d == 8 {
        "8"
    } else {
        "9"
    }
}

/// Renders a number in decimal.
pub fn dec_text(n: u128) -> (r: String)
    ensures
        r@ == spec_dec(n as nat),
    decreases n,
{
    if n < 10 {
        digit_str(n as u8).to_owned()
    } else {
        let mut r = dec_text(n / 10);
        r.append(digit_str((n % 10) as u8));
        r
    }
}

/// Right-justifies text in a field of `width` characters.
pub fn justify(s: &str, width: usize) -> (r: String)
    ensures
        r@ == spec_justify(s@, width as nat),
{
    proof {
        reveal_strlit(" ");
    }
    let len = s.unicode_len();
    let mut r = String::new();
    if len < width {
        let pad = width - len;
        for k in 0..pad
            invariant
                r@ == spec_repeat(' ', k as nat),
        {
            proof {
                reveal_strlit(" ");
            }
            r.append(" ");
        }
    }
    r.append(s);
    r
}

/// Left-pads a decimal rendering with zeroes to `width` characters.
pub fn zero_padded_dec(n: u128, width: usize) -> (r: String)
    ensures
        r@ == spec_zero_pad(n as nat, width as nat),
{
    proof {
        reveal_strlit("0");
    }
    let digits = dec_text(n);
    let len = digits.as_str().unicode_len();
    let mut r = String::new();
    if len < width {
        let pad = width - len;
        for k in 0..pad
            invariant
                r@ == spec_repeat('0', k as nat),
        {
            proof {
                reveal_strlit("0");
            }
            r.append("0");
        }
    }
    r.append(digits.as_str());
    r
}

/// The decimal rendering of `n`, left-padded with zeroes to `width`.
pub open spec fn spec_zero_pad(n: nat, width: nat) -> Seq<char> {
    if spec_dec(n).len() >= width {
        spec_dec(n)
    } else {
        spec_repeat('0', (width - spec_dec(n).len()) as nat) + spec_dec(n)
    }
}

/// The batch's wall-clock time in whole milliseconds, rounded to nearest.
pub open spec fn spec_millis(nanos: nat) -> nat {
    (nanos + 500_000) / 1_000_000
}

/// Seconds with three decimals: the rounded milliseconds split at the point.
pub open spec fn spec_seconds_text(nanos: nat) -> Seq<char> {
    spec_dec(spec_millis(nanos) / 1000) + seq!['.'] + spec_zero_pad(spec_millis(nanos) % 1000, 3)
}

/// Renders elapsed nanoseconds as seconds with three decimals.
pub fn seconds_text(nanos: u64) -> (r: String)
    ensures
        r@ == spec_seconds_text(nanos as nat),
{
    proof {
        reveal_strlit(".");
    }
    let millis: u128 = (nanos as u128 + 500_000) / 1_000_000;
    let mut r = dec_text(millis / 1000);
    r.append(".");
    r.append(zero_padded_dec(millis % 1000, 3).as_str());
    assert(r@ =~= spec_seconds_text(nanos as nat));
    r
}

/// Throughput in puzzles per second, rounded to the nearest whole number;
/// zero when no time at all was measured.
pub open spec fn spec_rate(total: nat, nanos: nat) -> nat {
    if nanos == 0 {
        0
    } else {
        (total * 1_000_000_000 + nanos / 2) / nanos
    }
}

/// Renders the throughput of `total` puzzles over `nanos` nanoseconds.
pub fn rate_text(total: usize, nanos: u64) -> (r: String)
    ensures
        r@ == spec_dec(spec_rate(total as nat, nanos as nat)),
{
    if nanos == 0 {
        dec_text(0)
    } else {
        let scaled: u128 = (total as u128) * 1_000_000_000 + (nanos as u128) / 2;
        dec_text(scaled / (nanos as u128))
    }
}

/// The fixed marker put before a parse error's message.
pub open spec fn spec_error_marker() -> Seq<char> {
    "invalid sudoku: "@
}

/// The error-channel lines of a batch: one marked parse-error line per
/// malformed input line, in input order.
pub open spec fn spec_error_lines(lines: Seq<Seq<char>>) -> Seq<Seq<char>>
    decreases lines.len(),
{
    if lines.len() == 0 {
        Seq::empty()
    } else {
        spec_error_lines(lines.drop_last()) + (if !line_parses(lines.last()) {
            seq![spec_error_marker() + parse_error_text_of(lines.last())]
        } else {
            Seq::empty()
        })
    }
}

/// Renders a parse error's message behind the fixed error marker.
pub fn error_line(message: &str) -> (r: String)
    ensures
        r@ == spec_error_marker() + message@,
{
    let mut r = String::new();
    r.append("invalid sudoku: ");
    r.append(message);
    r
}

/// The one output line the solve verb owes an outcome.
pub open spec fn spec_solve_line(o: SolveOutcomeSpec) -> Seq<char> {
    match o {
        SolveOutcomeSpec::Solved(t) => t,
        SolveOutcomeSpec::NoUnique(t) => t + " no unique solution"@,
        SolveOutcomeSpec::Malformed(m) => spec_error_marker() + m,
    }
}

/// Renders one solve outcome: the solution, the original plus the fixed
/// no-unique-solution marker, or the error marker plus the parse error.
pub fn solve_line_text(o: &SolveOutcome) -> (r: String)
    ensures
        r@ == spec_solve_line(o@),
{
    match o {
        SolveOutcome::Solved(t) => t.clone(),
        SolveOutcome::NoUnique(t) => {
            let mut r = t.clone();
            r.append(" no unique solution");
            r
        },
        SolveOutcome::Malformed(m) => error_line(m.as_str()),
    }
}

/// The one output line the canonicalize verb owes an outcome.
pub open spec fn spec_canon_line(o: CanonOutcomeSpec) -> Seq<char> {
    match o {
        CanonOutcomeSpec::Canonical(t, n) => t + seq![' '] + spec_dec(n),
        CanonOutcomeSpec::NotCanonical(t) => t + " not valid or not solved"@,
        CanonOutcomeSpec::Malformed(m) => spec_error_marker() + m,
    }
}

/// Renders one canonicalize outcome: the canonical form and its automorphism
/// count, the original plus a fixed marker, or the error marker plus the
/// parse error.
pub fn canon_line_text(o: &CanonOutcome) -> (r: String)
    ensures
        r@ == spec_canon_line(o@),
{
    proof {
        reveal_strlit(" ");
    }
    match o {
        CanonOutcome::Canonical(t, n) => {
            let mut r = t.clone();
            r.append(" ");
            r.append(dec_text(*n as u128).as_str());
            assert(r@ =~= spec_canon_line(o@));
            r
        },
        CanonOutcome::NotCanonical(t) => {
            let mut r = t.clone();
            r.append(" not valid or not solved");
            r
        },
        CanonOutcome::Malformed(m) => error_line(m.as_str()),
    }
}

/// The aggregate row owed to one run's statistics: the four counters in
/// nine-character columns when counts are shown, seconds and throughput in
/// ten-character columns when timing was measured, then the source path —
/// each column followed by one space.
pub open spec fn spec_stats_row(st: RunStatistics, show_counts: bool, path: Option<Seq<char>>) -> Seq<char> {
    (if show_counts {
        spec_justify(spec_dec(st.total as nat), 9) + seq![' '] + spec_justify(
            spec_dec(st.solved as nat),
            9,
        ) + seq![' '] + spec_justify(spec_dec(st.non_unique as nat), 9) + seq![' ']
            + spec_justify(spec_dec(st.invalid as nat), 9) + seq![' ']
    } else {
        Seq::empty()
    }) + (match st.elapsed_nanos {
        Some(ns) => spec_justify(spec_seconds_text(ns as nat), 10) + seq![' '] + spec_justify(
            spec_dec(spec_rate(st.total as nat, ns as nat)),
            10,
        ) + seq![' '],
        None => Seq::empty(),
    }) + (match path {
        Some(p) => p,
        None => Seq::empty(),
    })
}

/// The spec text of an optional source path.
pub open spec fn spec_path_view(path: Option<&str>) -> Option<Seq<char>> {
    match path {
        Some(p) => Some(p@),
        None => None,
    }
}

/// Renders one aggregate row.
pub fn stats_row_text(st: &RunStatistics, show_counts: bool, path: Option<&str>) -> (r: String)
    ensures
        r@ == spec_stats_row(*st, show_counts, spec_path_view(path)),
{
    proof {
        reveal_strlit(" ");
    }
    let mut r = String::new();
    if show_counts {
        r.append(justify(dec_text(st.total as u128).as_str(), 9).as_str());
        r.append(" ");
        r.append(justify(dec_text(st.solved as u128).as_str(), 9).as_str());
        r.append(" ");
        r.append(justify(dec_text(st.non_unique as u128).as_str(), 9).as_str());
        r.append(" ");
        r.append(justify(dec_text(st.invalid as u128).as_str(), 9).as_str());
        r.append(" ");
    }
    if let Some(ns) = st.elapsed_nanos {
        r.append(justify(seconds_text(ns).as_str(), 10).as_str());
        r.append(" ");
        r.append(justify(rate_text(st.total, ns).as_str(), 10).as_str());
        r.append(" ");
    }
    if let Some(p) = path {
        r.append(p);
    }
    assert(r@ =~= spec_stats_row(*st, show_counts, spec_path_view(path)));
    r
}

/// The header line matching the aggregate row's columns.
pub open spec fn spec_stats_header() -> Seq<char> {
    spec_justify("total"@, 9) + seq![' '] + spec_justify("unique"@, 9) + seq![' '] + spec_justify(
        "nonunique"@,
        9,
    ) + seq![' '] + spec_justify("invalid"@, 9) + seq![' '] + spec_justify("time [s]"@, 10)
        + seq![' '] + spec_justify("sudokus/s"@, 10) + seq![' ']
}

/// Renders the aggregate header, printed exactly once before any aggregate
/// row.
pub fn stats_header_text() -> (r: String)
    ensures
        r@ == spec_stats_header(),
{
    proof {
        reveal_strlit(" ");
    }
    let mut r = String::new();
    r.append(justify("total", 9).as_str());
    r.append(" ");
    r.append(justify("unique", 9).as_str());
    r.append(" ");
    r.append(justify("nonunique", 9).as_str());
    r.append(" ");
    r.append(justify("invalid", 9).as_str());
    r.append(" ");
    r.append(justify("time [s]", 10).as_str());
    r.append(" ");
    r.append(justify("sudokus/s", 10).as_str());
    r.append(" ");
    assert(r@ =~= spec_stats_header());
    r
}

} // verus!
