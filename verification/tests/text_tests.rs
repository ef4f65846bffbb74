use novel_sources::content::{paragraph_block, paragraph_blocks, push_review_link, ContentBlock};
use novel_sources::text::{
    concat2, first_number, contains, decimal, ends_with, find, is_whitespace, join, replace, same_text, split,
    starts_with, strip_prefix_or_self, trim, trim_end_char,
};

#[test]
fn trim_removes_unicode_whitespace_at_both_ends() {
    assert_eq!(trim("  \t hello world \n\u{3000}"), "hello world");
    assert_eq!(trim("   "), "");
    assert_eq!(trim(""), "");
    assert_eq!(trim("a"), "a");
    assert!(is_whitespace('\u{a0}'));
    assert!(!is_whitespace('x'));
}

#[test]
fn trim_end_char_removes_every_trailing_copy() {
    assert_eq!(trim_end_char("Alice,,", ','), "Alice");
    assert_eq!(trim_end_char(",a,b", ','), ",a,b");
    assert_eq!(trim_end_char(",,,", ','), "");
}

#[test]
fn replace_matches_std_replace() {
    for (s, p, t) in [
        ("/fiction/123/name", "/fiction/", ""),
        ("aaa", "aa", "b"),
        ("novelbuddy.com/x.novelbuddy.com", "novelbuddy.com", "api.novelbuddy.com"),
        ("", "x", "y"),
        ("abc", "abcd", "z"),
        ("abc", "", "-"),
        ("", "", "-"),
    ] {
        assert_eq!(replace(s, p, t), s.replace(p, t));
    }
}

#[test]
fn split_matches_std_split() {
    for (s, c) in [("a/b//c", '/'), ("", '/'), ("/", '/'), ("no sep", ':'), ("x y z", ' ')] {
        let expected: Vec<String> = s.split(c).map(String::from).collect();
        assert_eq!(split(s, c), expected);
    }
}

#[test]
fn decimal_matches_display() {
    for n in [0, 7, 10, 42, -1, -305, i32::MAX, i32::MIN] {
        assert_eq!(decimal(n), n.to_string());
    }
}

#[test]
fn prefix_suffix_find_contains_and_join() {
    assert!(starts_with("https://x", "https://"));
    assert!(!starts_with("http://x", "https://"));
    assert!(ends_with("[quote]", "]"));
    assert_eq!(strip_prefix_or_self("https://site.org/a", "https://site.org/"), "a");
    assert_eq!(strip_prefix_or_self("other/a", "https://site.org/"), "other/a");
    assert_eq!(find("ab\"mangaHsid\":\"x", "\"mangaHsid\":\""), Some(2));
    assert_eq!(find("abc", "d"), None);
    assert!(contains("3 days ago", "ago"));
    assert!(!contains("yesterday", "ago"));
    let parts = vec!["one".to_string(), "two".to_string(), "three".to_string()];
    assert_eq!(join(&parts, "\n\n"), "one\n\ntwo\n\nthree");
    assert_eq!(join(&Vec::new(), "\n\n"), "");
    assert_eq!(concat2("ab", "cd"), "abcd");
    assert!(same_text("***", "***"));
    assert!(!same_text("**", "***"));
}

#[test]
fn paragraphs_become_quotes_dividers_or_paragraphs() {
    assert!(matches!(paragraph_block("[A note]".to_string()), ContentBlock::BlockQuote(t) if t == "A note"));
    assert!(matches!(paragraph_block("[]".to_string()), ContentBlock::BlockQuote(t) if t.is_empty()));
    assert!(matches!(paragraph_block("***".to_string()), ContentBlock::Divider));
    assert!(matches!(paragraph_block("[".to_string()), ContentBlock::Paragraph(t) if t == "["));
    assert!(matches!(paragraph_block("Plain text.".to_string()), ContentBlock::Paragraph(t) if t == "Plain text."));
    assert!(matches!(paragraph_block("[é]".to_string()), ContentBlock::BlockQuote(t) if t == "é"));
}

#[test]
fn paragraphs_without_text_give_no_block_and_the_link_comes_last() {
    let mut blocks = paragraph_blocks(vec![Some("one".to_string()), None, Some("***".to_string())]);
    assert_eq!(blocks.len(), 2);
    push_review_link(&mut blocks, "LINK: ", "https://x/y");
    assert_eq!(blocks.len(), 4);
    assert!(matches!(&blocks[2], ContentBlock::Divider));
    assert!(matches!(&blocks[3], ContentBlock::Paragraph(t) if t == "LINK: [click here for chapter reviews.](https://x/y)"));
}

#[test]
fn first_number_finds_the_first_decimal_written() {
    assert_eq!(first_number("Chapter 12.5: Title 3").as_deref(), Some("12.5"));
    assert_eq!(first_number("Chapter 7. Dawn").as_deref(), Some("7"));
    assert_eq!(first_number("v2.x").as_deref(), Some("2"));
    assert_eq!(first_number("1.2.3").as_deref(), Some("1.2"));
    assert_eq!(first_number("Prologue"), None);
    assert_eq!(first_number(""), None);
}
