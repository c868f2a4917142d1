use rssterm::text::{html_lines, split_lines, trim, wrap};

#[test]
fn split_lines_handles_crlf_and_final_newline() {
    assert_eq!(split_lines("a\r\nb\n\nc\n"), vec!["a", "b", "", "c"]);
    assert_eq!(split_lines(""), Vec::<String>::new());
    assert_eq!(split_lines("one"), vec!["one"]);
    assert_eq!(split_lines("x\r"), vec!["x\r"]);
    assert_eq!(split_lines("\n"), vec![""]);
}

#[test]
fn trim_removes_unicode_whitespace() {
    assert_eq!(trim("  hi there \t\n"), "hi there");
    assert_eq!(trim("\u{3000}x\u{a0}"), "x");
    assert_eq!(trim("   "), "");
    assert_eq!(trim(""), "");
}

#[test]
fn wrap_breaks_at_width() {
    assert_eq!(wrap("hello world", 5), vec!["hello", "world"]);
    assert_eq!(wrap("abcdefgh", 3), vec!["abc", "def", "gh"]);
    assert_eq!(wrap("short", 80), vec!["short"]);
}

#[test]
fn html_lines_strips_markup() {
    let lines = html_lines("<p>Hello</p><p>World</p>");
    assert!(lines.iter().any(|l| l.contains("Hello")));
    assert!(lines.iter().any(|l| l.contains("World")));
    assert!(lines.iter().all(|l| !l.contains("<p>")));
}

#[test]
fn html_lines_of_plain_text() {
    assert_eq!(html_lines("just text"), vec!["just text"]);
}
