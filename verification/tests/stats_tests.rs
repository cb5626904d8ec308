use rudoku::stats::collect_run_statistics;
use rudoku::strategy::Strategy;

/// A complete valid grid: exactly one solution.
const FULL_GRID: &str =
    "123489567456127893789356124214538976365791248897642351548963712631275489972814635";

/// The full grid with one cell blanked: still uniquely solvable.
const ONE_BLANK: &str =
    ".23489567456127893789356124214538976365791248897642351548963712631275489972814635";

/// The full grid with a digit-swap rectangle blanked: exactly two solutions.
const TWO_SOLUTIONS: &str =
    ".23.89567.56.27893789356124214538976365791248897642351548963712631275489972814635";

/// Too short to be a grid: 80 cells.
const SHORT_LINE: &str =
    "23489567456127893789356124214538976365791248897642351548963712631275489972814635";

/// A line that parses but whose first row holds two 1s: no solution.
const CONTRADICTION: &str =
    "11...............................................................................";

#[test]
fn one_malformed_line_counts_as_one_invalid() {
    let lines = vec![SHORT_LINE.to_string()];
    let (st, errs) = collect_run_statistics(&Strategy::Sequential, &lines, false);
    assert_eq!(st.total, 1);
    assert_eq!(st.solved, 0);
    assert_eq!(st.non_unique, 0);
    assert_eq!(st.invalid, 1);
    assert_eq!(st.elapsed_nanos, None);
    assert_eq!(errs.len(), 1);
    assert!(errs[0].starts_with("invalid sudoku: "));
}

#[test]
fn aggregate_over_three_lines_with_timing() {
    let lines = vec![
        FULL_GRID.to_string(),
        ONE_BLANK.to_string(),
        TWO_SOLUTIONS.to_string(),
    ];
    for strategy in [Strategy::Sequential, Strategy::Parallel] {
        let (st, errs) = collect_run_statistics(&strategy, &lines, true);
        assert_eq!(st.total, 3);
        assert_eq!(st.solved, 2);
        assert_eq!(st.non_unique, 1);
        assert_eq!(st.invalid, 0);
        assert!(st.elapsed_nanos.is_some());
        assert_eq!(errs.len(), 0);
    }
}

#[test]
fn counters_partition_a_mixed_batch() {
    let lines = vec![
        SHORT_LINE.to_string(),
        FULL_GRID.to_string(),
        TWO_SOLUTIONS.to_string(),
        CONTRADICTION.to_string(),
        ONE_BLANK.to_string(),
    ];
    let (st, errs) = collect_run_statistics(&Strategy::Sequential, &lines, false);
    assert_eq!(st.total, lines.len());
    assert_eq!(st.solved + st.non_unique + st.invalid, st.total);
    assert_eq!(st.solved, 2);
    assert_eq!(st.non_unique, 1);
    assert_eq!(st.invalid, 2);
    assert_eq!(errs.len(), 1);
}

#[test]
fn empty_batch_has_all_zero_counters() {
    let lines: Vec<String> = Vec::new();
    let (st, errs) = collect_run_statistics(&Strategy::Sequential, &lines, false);
    assert_eq!(st.total, 0);
    assert_eq!(st.solved, 0);
    assert_eq!(st.non_unique, 0);
    assert_eq!(st.invalid, 0);
    assert_eq!(errs.len(), 0);
}

#[test]
fn malformed_lines_do_not_stop_later_lines() {
    let lines = vec![SHORT_LINE.to_string(), SHORT_LINE.to_string(), FULL_GRID.to_string()];
    let (st, errs) = collect_run_statistics(&Strategy::Sequential, &lines, false);
    assert_eq!(st.total, 3);
    assert_eq!(st.invalid, 2);
    assert_eq!(st.solved, 1);
    assert_eq!(errs.len(), 2);
}

