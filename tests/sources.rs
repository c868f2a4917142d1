use rssterm::sources::{normalize_url, parse_source_list};

#[test]
fn source_list_skips_blank_and_invalid_lines() {
    let sources = parse_source_list("  \nhttps://example.com/feed\nnot-a-url\n");
    assert_eq!(sources.len(), 1);
    assert_eq!(sources, vec!["https://example.com/feed"]);
}

#[test]
fn source_list_trims_and_normalizes() {
    let sources = parse_source_list("\t https://example.com \r\nhttp://a.org/x\n\n");
    assert_eq!(sources, vec!["https://example.com/", "http://a.org/x"]);
}

#[test]
fn source_list_empty_text() {
    assert!(parse_source_list("").is_empty());
}

#[test]
fn normalize_url_serializes() {
    assert_eq!(normalize_url("HTTPS://Example.COM"), Some("https://example.com/".to_string()));
    assert_eq!(normalize_url("relative/path"), None);
}
