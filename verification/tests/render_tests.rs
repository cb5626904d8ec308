use rudoku::outcome::SolveOutcome;
use rudoku::render::{
    dec_text, error_line, justify, rate_text, seconds_text, solve_line_text, stats_header_text,
    stats_row_text, zero_padded_dec,
};
use rudoku::stats::RunStatistics;

#[test]
fn decimal_rendering_is_exact() {
    assert_eq!(dec_text(0), "0");
    assert_eq!(dec_text(7), "7");
    assert_eq!(dec_text(10), "10");
    assert_eq!(dec_text(90078), "90078");
}

#[test]
fn justify_pads_on_the_left() {
    assert_eq!(justify("7", 9), "        7");
    assert_eq!(justify("abcdefghij", 9), "abcdefghij");
    assert_eq!(justify("", 3), "   ");
}

#[test]
fn zero_padding_is_exact() {
    assert_eq!(zero_padded_dec(7, 3), "007");
    assert_eq!(zero_padded_dec(70, 3), "070");
    assert_eq!(zero_padded_dec(700, 3), "700");
    assert_eq!(zero_padded_dec(7000, 3), "7000");
}

#[test]
fn seconds_round_to_nearest_millisecond() {
    assert_eq!(seconds_text(0), "0.000");
    assert_eq!(seconds_text(1_499_999), "0.001");
    assert_eq!(seconds_text(1_500_000), "0.002");
    assert_eq!(seconds_text(2_000_000_000), "2.000");
    assert_eq!(seconds_text(61_234_000_000), "61.234");
}

#[test]
fn rate_is_puzzles_per_second_rounded() {
    assert_eq!(rate_text(3, 2_000_000_000), "2");
    assert_eq!(rate_text(1000, 1_000_000_000), "1000");
    assert_eq!(rate_text(1, 3_000_000_000), "0");
    assert_eq!(rate_text(2, 3_000_000_000), "1");
}

#[test]
fn header_matches_row_columns() {
    assert_eq!(
        stats_header_text(),
        "    total    unique nonunique   invalid   time [s]  sudokus/s "
    );
}

#[test]
fn stats_row_with_counts_and_timing() {
    let st = RunStatistics {
        solved: 2,
        non_unique: 1,
        invalid: 0,
        total: 3,
        elapsed_nanos: Some(2_000_000_000),
    };
    let row = stats_row_text(&st, true, Some("puzzles.txt"));
    assert_eq!(
        row,
        "        3         2         1         0      2.000          2 puzzles.txt"
    );
}

#[test]
fn stats_row_omits_timing_when_not_measured() {
    let st = RunStatistics { solved: 2, non_unique: 1, invalid: 0, total: 3, elapsed_nanos: None };
    assert_eq!(stats_row_text(&st, true, None), "        3         2         1         0 ");
}

#[test]
fn error_line_carries_the_fixed_marker() {
    assert_eq!(error_line("boom"), "invalid sudoku: boom");
}

#[test]
fn solve_outcome_rendering() {
    let solved = SolveOutcome::Solved("123".to_string());
    assert_eq!(solve_line_text(&solved), "123");
    let not_unique = SolveOutcome::NoUnique("456".to_string());
    assert_eq!(solve_line_text(&not_unique), "456 no unique solution");
    let malformed = SolveOutcome::Malformed("oops".to_string());
    assert_eq!(solve_line_text(&malformed), "invalid sudoku: oops");
}
