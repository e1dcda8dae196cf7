//! The URL-list input format.

use scraper_rs::input::parse_url_list;

fn views(v: &[String]) -> Vec<&str> {
    v.iter().map(|s| s.as_str()).collect()
}

#[test]
fn one_url_per_line_in_order() {
    let text = "https://a/1\nhttps://b/2\nhttps://c/3";
    assert_eq!(views(&parse_url_list(text)), vec!["https://a/1", "https://b/2", "https://c/3"]);
}

#[test]
fn surrounding_whitespace_is_trimmed() {
    let text = "  https://a/1 \n\thttps://b/2\r\n";
    assert_eq!(views(&parse_url_list(text)), vec!["https://a/1", "https://b/2"]);
}

#[test]
fn blank_lines_are_ignored() {
    let text = "\n\nhttps://a/1\n   \n\t\r\nhttps://b/2\n\n";
    assert_eq!(views(&parse_url_list(text)), vec!["https://a/1", "https://b/2"]);
}

#[test]
fn empty_text_has_no_urls() {
    assert_eq!(parse_url_list("").len(), 0);
    assert_eq!(parse_url_list("   \n \n").len(), 0);
}

#[test]
fn a_final_line_without_newline_counts() {
    assert_eq!(views(&parse_url_list("https://a/1\nhttps://b/2")), vec![
        "https://a/1",
        "https://b/2"
    ]);
    assert_eq!(views(&parse_url_list("https://only/one")), vec!["https://only/one"]);
}

#[test]
fn inner_spaces_are_kept() {
    assert_eq!(views(&parse_url_list(" a b \n")), vec!["a b"]);
}
