use playback_core::display::{format_duration, playlist_pages};
use playback_core::hex::{parse_hex_bytes, HexError};
use playback_core::text::{
    contains_str, is_blank, truncate_chars, truncate_embed_description, truncate_embed_field_value,
    truncate_embed_title,
};

#[test]
fn truncate_keeps_short_text() {
    assert_eq!(truncate_chars("hello", 5), "hello");
    assert_eq!(truncate_chars("hello", 0), "");
}

#[test]
fn truncate_marks_cut_text() {
    assert_eq!(truncate_chars("hello world", 5), "hell…");
    assert_eq!(truncate_chars("日本語テキスト", 3), "日本…");
    assert_eq!(truncate_chars("ab", 1), "…");
}

#[test]
fn embed_limits() {
    let long = "x".repeat(5000);
    assert_eq!(truncate_embed_title(&long).chars().count(), 256);
    assert_eq!(truncate_embed_description(&long).chars().count(), 4096);
    assert_eq!(truncate_embed_field_value(&long).chars().count(), 1024);
    assert!(truncate_embed_title(&long).ends_with('…'));
}

#[test]
fn substring_search() {
    assert!(contains_str("https://youtu.be/abc", "youtu.be"));
    assert!(!contains_str("abc", "abcd"));
    assert!(contains_str("abc", ""));
}

#[test]
fn blank_uses_trim() {
    assert!(is_blank("  \t\n"));
    assert!(is_blank(""));
    assert!(!is_blank(" x "));
}

#[test]
fn hex_with_separators_and_prefixes() {
    assert_eq!(parse_hex_bytes("48 89 e5").unwrap(), vec![0x48, 0x89, 0xe5]);
    assert_eq!(parse_hex_bytes("0x4889e5").unwrap(), vec![0x48, 0x89, 0xe5]);
    assert_eq!(parse_hex_bytes("0xDE,0xAD:be_ef").unwrap(), vec![0xde, 0xad, 0xbe, 0xef]);
    assert_eq!(parse_hex_bytes("  00ff  ").unwrap(), vec![0x00, 0xff]);
    assert_eq!(parse_hex_bytes("").unwrap(), Vec::<u8>::new());
}

#[test]
fn hex_errors() {
    assert_eq!(parse_hex_bytes("48 8"), Err(HexError::OddLength));
    assert_eq!(parse_hex_bytes("4g"), Err(HexError::InvalidChar('g')));
    assert_eq!(parse_hex_bytes("x1"), Err(HexError::InvalidChar('x')));
}

#[test]
fn hex_trims_unicode_whitespace() {
    // U+3000 is whitespace to str::trim but not a separator inside the text.
    assert_eq!(parse_hex_bytes("\u{3000}ab\u{3000}").unwrap(), vec![0xab]);
    assert_eq!(parse_hex_bytes("a\u{3000}b"), Err(HexError::InvalidChar('\u{3000}')));
}

#[test]
fn duration_text() {
    assert_eq!(format_duration(None), "--:--");
    assert_eq!(format_duration(Some(0)), "00:00");
    assert_eq!(format_duration(Some(65_999)), "01:05");
    assert_eq!(format_duration(Some(6_000_000)), "100:00");
}

#[test]
fn playlist_pages_of_ten() {
    let urls: Vec<String> = (1..=12).map(|i| format!("u{i}")).collect();
    let pages = playlist_pages(&urls, "Mix");
    assert_eq!(pages.len(), 2);
    assert!(pages[0].starts_with("📃 Mix (1/2)\n\n1. u1\n2. u2\n"));
    assert!(pages[0].ends_with("10. u10\n"));
    assert_eq!(pages[1], "📃 Mix (2/2)\n\n11. u11\n12. u12\n");
    assert!(playlist_pages(&Vec::new(), "Empty").is_empty());
}
