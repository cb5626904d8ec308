use rudoku::render::solve_line_text;
use rudoku::strategy::Strategy;
use rudoku::verbs::solve_batch;

/// A complete valid grid: exactly one solution, itself.
const FULL_GRID: &str =
    "123489567456127893789356124214538976365791248897642351548963712631275489972814635";

/// The same grid with one cell blanked: still uniquely solvable.
const ONE_BLANK: &str =
    ".23489567456127893789356124214538976365791248897642351548963712631275489972814635";

/// The same grid with the corners of a digit-swap rectangle blanked
/// (cells 0, 3, 9 and 12, holding 1, 4, 4 and 1): exactly two solutions.
const TWO_SOLUTIONS: &str =
    ".23.89567.56.27893789356124214538976365791248897642351548963712631275489972814635";

/// Too short to be a grid: 80 cells.
const SHORT_LINE: &str =
    "23489567456127893789356124214538976365791248897642351548963712631275489972814635";

fn batch() -> Vec<String> {
    vec![
        FULL_GRID.to_string(),
        ONE_BLANK.to_string(),
        TWO_SOLUTIONS.to_string(),
        SHORT_LINE.to_string(),
    ]
}

#[test]
fn one_outcome_per_line_in_input_order() {
    let lines = batch();
    for strategy in [Strategy::Sequential, Strategy::Parallel] {
        let outcomes = strategy.solve_lines(&lines);
        assert_eq!(outcomes.len(), lines.len());
        let rendered: Vec<String> = outcomes.iter().map(solve_line_text).collect();
        assert_eq!(rendered[0], FULL_GRID);
        assert_eq!(rendered[1], FULL_GRID);
        assert_eq!(rendered[2], format!("{} no unique solution", TWO_SOLUTIONS));
        assert!(rendered[3].starts_with("invalid sudoku: "));
    }
}

#[test]
fn sequential_and_parallel_emit_identical_output() {
    let lines = batch();
    let sequential = solve_batch(&Strategy::Sequential, &lines);
    let parallel = solve_batch(&Strategy::Parallel, &lines);
    assert_eq!(sequential, parallel);
    assert_eq!(sequential.len(), lines.len());
}

#[test]
fn solution_agrees_with_the_engine() {
    let lines = vec![ONE_BLANK.to_string()];
    let out = solve_batch(&Strategy::Sequential, &lines);
    let expected = sudoku::Sudoku::from_str_line(ONE_BLANK)
        .unwrap()
        .solution()
        .unwrap()
        .to_string();
    assert_eq!(out, vec![expected.clone()]);
    assert_eq!(expected, FULL_GRID);
}

#[test]
fn non_unique_output_is_the_normalized_grid() {
    // The same two-solution grid written with '0' for empty cells: the
    // rendering in the output is the engine's normalized form with '.',
    // not the input text.
    let zeros = TWO_SOLUTIONS.replace('.', "0");
    let out = solve_batch(&Strategy::Sequential, &vec![zeros.clone()]);
    assert_eq!(out, vec![format!("{} no unique solution", TWO_SOLUTIONS)]);
    assert_ne!(zeros, TWO_SOLUTIONS);
}

#[test]
fn malformed_line_reports_the_engine_message() {
    let out = solve_batch(&Strategy::Sequential, &vec![SHORT_LINE.to_string()]);
    assert_eq!(out, vec![
        "invalid sudoku: sudoku contains 80 cells instead of required 81".to_string(),
    ]);
}

#[test]
fn malformed_line_does_not_abort_the_batch() {
    let lines = vec![SHORT_LINE.to_string(), ONE_BLANK.to_string()];
    let out = solve_batch(&Strategy::Sequential, &lines);
    assert_eq!(out.len(), 2);
    assert!(out[0].starts_with("invalid sudoku: "));
    assert_eq!(out[1], FULL_GRID);
}
