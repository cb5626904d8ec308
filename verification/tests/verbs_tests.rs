use rudoku::verbs::{canonicalize_batch, shuffle_batch};

/// A complete valid grid: exactly one solution.
const FULL_GRID: &str =
    "123489567456127893789356124214538976365791248897642351548963712631275489972814635";

/// The full grid with a digit-swap rectangle blanked: exactly two solutions.
const TWO_SOLUTIONS: &str =
    ".23.89567.56.27893789356124214538976365791248897642351548963712631275489972814635";

/// Too short to be a grid: 80 cells.
const SHORT_LINE: &str =
    "23489567456127893789356124214538976365791248897642351548963712631275489972814635";

#[test]
fn shuffle_emits_count_grids_per_valid_line() {
    let lines = vec![FULL_GRID.to_string(), SHORT_LINE.to_string(), FULL_GRID.to_string()];
    let (out, errs) = shuffle_batch(&lines, 3);
    assert_eq!(out.len(), 6);
    assert_eq!(errs.len(), 1);
    assert!(errs[0].starts_with("invalid sudoku: "));
    for t in &out {
        assert_eq!(t.chars().count(), 81);
        assert!(sudoku::Sudoku::from_str_line(t).is_ok());
    }
}

#[test]
fn shuffling_preserves_the_equivalence_class() {
    let lines = vec![FULL_GRID.to_string()];
    let (out, _) = shuffle_batch(&lines, 2);
    let (canonical, _) = sudoku::Sudoku::from_str_line(FULL_GRID)
        .unwrap()
        .canonicalized()
        .unwrap();
    for t in &out {
        let (c, _) = sudoku::Sudoku::from_str_line(t).unwrap().canonicalized().unwrap();
        assert_eq!(c, canonical);
    }
}

#[test]
fn canonicalize_is_idempotent_on_its_own_output() {
    let lines = vec![FULL_GRID.to_string()];
    let (out, errs) = canonicalize_batch(&lines);
    assert_eq!(out.len(), 1);
    assert_eq!(errs.len(), 0);
    let mut parts = out[0].rsplitn(2, ' ');
    let autos: usize = parts.next().unwrap().parse().unwrap();
    let canon_text = parts.next().unwrap().to_string();
    assert!(autos >= 1);
    let again = canonicalize_batch(&vec![canon_text.clone()]);
    assert_eq!(again.0, vec![format!("{} {}", canon_text, autos)]);
}

#[test]
fn canonicalize_marks_lines_it_cannot_canonicalize() {
    let lines = vec![TWO_SOLUTIONS.to_string(), SHORT_LINE.to_string()];
    let (out, errs) = canonicalize_batch(&lines);
    assert_eq!(out, vec![format!("{} not valid or not solved", TWO_SOLUTIONS)]);
    assert_eq!(errs.len(), 1);
    assert!(errs[0].starts_with("invalid sudoku: "));
}
