use rtk_core::tee::tee_content;
use rtk_core::truncate::truncate_utf8;

#[test]
fn test_truncate_utf8_ascii() {
    let short = "hello";
    assert_eq!(truncate_utf8(short, 80), "hello");
    let long = "x".repeat(100);
    let result = truncate_utf8(&long, 80);
    assert!(result.ends_with('…'));
    assert!(result.len() <= 84); // 80 + 3 bytes for …
}

#[test]
fn test_truncate_utf8_multibyte() {
    // Japanese chars are 3 bytes each
    let japanese = "\u{6F22}".repeat(30); // 90 bytes
    let result = truncate_utf8(&japanese, 80);
    assert!(result.ends_with('…'));
    // Should not panic — must truncate at char boundary
    assert!(result.is_char_boundary(result.len() - '…'.len_utf8()));
}

#[test]
fn truncation_keeps_what_begins_in_time() {
    let long = "x".repeat(100);
    assert_eq!(truncate_utf8(&long, 80), format!("{}…", "x".repeat(80)));
    let japanese = "\u{6F22}".repeat(30);
    assert_eq!(
        truncate_utf8(&japanese, 80),
        format!("{}…", "\u{6F22}".repeat(27))
    );
    assert_eq!(truncate_utf8(&japanese, 81), format!("{}…", "\u{6F22}".repeat(27)));
    assert_eq!(truncate_utf8(&japanese, 82), format!("{}…", "\u{6F22}".repeat(28)));
}

#[test]
fn an_ellipsis_follows_only_where_something_was_cut_off() {
    // The only, or last, character begins in time but does not fit.
    assert_eq!(truncate_utf8("\u{6F22}", 2), "…");
    assert_eq!(truncate_utf8("ab\u{6F22}", 4), "ab…");
    let line = "\u{6F22}".repeat(27); // 81 bytes
    assert_eq!(
        truncate_utf8(&line, 80),
        format!("{}…", "\u{6F22}".repeat(26))
    );
    assert_eq!(truncate_utf8("\u{6F22}", 3), "\u{6F22}");
    assert_eq!(truncate_utf8("\u{6F22}a", 2), "\u{6F22}…");
}

#[test]
fn truncation_to_nothing() {
    assert_eq!(truncate_utf8("abc", 0), "…");
    assert_eq!(truncate_utf8("", 0), "");
}

#[test]
fn truncation_spares_what_fits() {
    let text = "\u{1F600}".repeat(20);
    assert_eq!(truncate_utf8(&text, 80), text);
}

#[test]
fn saved_text_that_fits_is_whole() {
    assert_eq!(tee_content("abc", 3), "abc");
    assert_eq!(tee_content("", 0), "");
}

#[test]
fn saved_text_is_rounded_down_to_a_boundary() {
    let emojis = "\u{1F600}".repeat(100);
    assert_eq!(
        tee_content(&emojis, 201),
        format!("{}\n\n--- truncated at 201 bytes ---", "\u{1F600}".repeat(50))
    );
    let japanese = "\u{6F22}".repeat(333);
    assert_eq!(
        tee_content(&japanese, 998),
        format!("{}\n\n--- truncated at 998 bytes ---", "\u{6F22}".repeat(332))
    );
    assert_eq!(tee_content("é", 1), "\n\n--- truncated at 1 bytes ---");
}
