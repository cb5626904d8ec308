use rudoku::strategy::Strategy;

#[test]
fn generate_five_emits_exactly_five_lines() {
    for strategy in [Strategy::Sequential, Strategy::Parallel] {
        let texts = strategy.generate_texts(5, false, false);
        assert_eq!(texts.len(), 5);
        for t in &texts {
            assert_eq!(t.chars().count(), 81);
            let grid = sudoku::Sudoku::from_str_line(t).unwrap();
            assert_eq!(grid.solutions_count_up_to(2), 1);
        }
    }
}

#[test]
fn generate_zero_emits_nothing() {
    let texts = Strategy::Sequential.generate_texts(0, false, false);
    assert_eq!(texts.len(), 0);
}

#[test]
fn generated_solved_grids_are_solved() {
    let texts = Strategy::Sequential.generate_texts(3, true, false);
    assert_eq!(texts.len(), 3);
    for t in &texts {
        let grid = sudoku::Sudoku::from_str_line(t).unwrap();
        assert!(grid.is_solved());
    }
}

#[test]
fn generate_block_form_emits_requested_count() {
    for strategy in [Strategy::Sequential, Strategy::Parallel] {
        let texts = strategy.generate_texts(2, false, true);
        assert_eq!(texts.len(), 2);
        for t in &texts {
            let cells = t.chars().filter(|c| *c == '_' || c.is_ascii_digit()).count();
            assert_eq!(cells, 81);
        }
    }
}
