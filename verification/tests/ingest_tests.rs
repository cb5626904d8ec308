use rudoku::ingest::split_lines;

#[test]
fn split_empty_content_has_no_lines() {
    let lines = split_lines("");
    assert_eq!(lines.len(), 0);
}

#[test]
fn split_single_line_without_newline() {
    let lines = split_lines("abc");
    assert_eq!(lines, vec!["abc".to_string()]);
}

#[test]
fn split_single_line_with_newline() {
    let lines = split_lines("abc\n");
    assert_eq!(lines, vec!["abc".to_string()]);
}

#[test]
fn split_strips_carriage_return_before_newline() {
    let lines = split_lines("abc\r\ndef\n");
    assert_eq!(lines, vec!["abc".to_string(), "def".to_string()]);
}

#[test]
fn split_keeps_carriage_return_without_newline() {
    let lines = split_lines("abc\r");
    assert_eq!(lines, vec!["abc\r".to_string()]);
}

#[test]
fn split_lone_newline_is_one_empty_line() {
    let lines = split_lines("\n");
    assert_eq!(lines, vec!["".to_string()]);
}

#[test]
fn split_keeps_empty_middle_lines() {
    let lines = split_lines("a\n\nb");
    assert_eq!(lines, vec!["a".to_string(), "".to_string(), "b".to_string()]);
}

#[test]
fn split_matches_std_lines() {
    let content = "one\r\ntwo\nthree\r\r\n\nfour";
    let expected: Vec<String> = content.lines().map(|l| l.to_string()).collect();
    assert_eq!(split_lines(content), expected);
}
