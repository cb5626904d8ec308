use rudoku::strategy::{select_strategy, Strategy};

#[test]
fn flags_force_their_variant() {
    assert_eq!(select_strategy(true, false, false), Strategy::Parallel);
    assert_eq!(select_strategy(true, false, true), Strategy::Parallel);
    assert_eq!(select_strategy(false, true, false), Strategy::Sequential);
    assert_eq!(select_strategy(false, true, true), Strategy::Sequential);
}

#[test]
fn default_decides_when_no_flag_is_given() {
    assert_eq!(select_strategy(false, false, false), Strategy::Sequential);
    assert_eq!(select_strategy(false, false, true), Strategy::Parallel);
}
