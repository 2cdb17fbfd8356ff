use crypto_workbench::text::{decimal, join_lines, strip_newlines};

#[test]
fn digits_are_written() {
    let all: Vec<String> = (0..10).map(decimal).collect();
    assert_eq!(all.concat(), "0123456789");
}

#[test]
fn numbers_are_written_in_decimal() {
    assert_eq!(decimal(0), "0");
    assert_eq!(decimal(7), "7");
    assert_eq!(decimal(10), "10");
    assert_eq!(decimal(26), "26");
    assert_eq!(decimal(1000), "1000");
    assert_eq!(decimal(9_007_199_254_740_993), "9007199254740993");
    assert_eq!(decimal(u64::MAX), "18446744073709551615");
    for n in [1, 9, 11, 99, 100, 101, 12345, 4_294_967_296] {
        assert_eq!(decimal(n), n.to_string());
    }
}

#[test]
fn line_feeds_are_taken_out() {
    assert_eq!(strip_newlines(""), "");
    assert_eq!(strip_newlines("\n"), "");
    assert_eq!(strip_newlines("abc"), "abc");
    assert_eq!(strip_newlines("a\nb\n\nc\n"), "abc");
    assert_eq!(strip_newlines("a\r\nb"), "a\rb");
    assert_eq!(strip_newlines("\u{e9}\n\u{1f600}"), "\u{e9}\u{1f600}");
}

#[test]
fn lines_are_joined_with_line_feeds() {
    assert_eq!(join_lines(&vec![]), "");
    assert_eq!(join_lines(&vec!["abc".to_string()]), "abc");
    assert_eq!(join_lines(&vec!["a".to_string(), "b".to_string()]), "a\nb");
    assert_eq!(join_lines(&vec!["a".to_string(), String::new(), "c".to_string()]), "a\n\nc");
    assert_eq!(join_lines(&vec![String::new()]), "");
    assert_eq!(join_lines(&vec![String::new(), String::new()]), "\n");
}
