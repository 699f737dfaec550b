use mcat_core::text::{push_decimal, push_signed_decimal, split_lines, trimmed_equals};

fn std_lines(s: &str) -> Vec<Vec<u8>> {
    s.lines().map(|l| l.as_bytes().to_vec()).collect()
}

#[test]
fn decimal_rendering() {
    let mut out = b"x=".to_vec();
    push_decimal(&mut out, 0);
    push_decimal(&mut out, 10);
    push_decimal(&mut out, u64::MAX);
    assert_eq!(out, format!("x=010{}", u64::MAX).into_bytes());
    let mut out = Vec::new();
    push_signed_decimal(&mut out, -42);
    push_signed_decimal(&mut out, i64::MIN);
    push_signed_decimal(&mut out, 7);
    assert_eq!(out, format!("-42{}7", i64::MIN).into_bytes());
}

#[test]
fn lines_match_std() {
    for s in ["", "\n", "a", "a\n", "a\n\n", "a\r\nb", "a\rb\r", "a\r", "a\r\n", "\r\n\r\n", "x\ny\nz", "é\n漢字\r\n"] {
        assert_eq!(split_lines(s.as_bytes()), std_lines(s), "input {s:?}");
    }
}

#[test]
fn final_line_feed_adds_no_line() {
    assert_eq!(split_lines(b"a\nb\n"), split_lines(b"a\nb"));
    assert_ne!(split_lines(b"\n"), split_lines(b""));
}

#[test]
fn trimming_comparison() {
    let target: Vec<char> = "less -r".chars().collect();
    assert!(trimmed_equals("less -r", &target));
    assert!(trimmed_equals(" \t less -r \u{2003}", &target));
    assert!(!trimmed_equals("less  -r", &target));
    assert!(!trimmed_equals("less -r x", &target));
    assert!(!trimmed_equals("", &target));
}
