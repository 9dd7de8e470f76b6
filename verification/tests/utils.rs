use odoo_18_quotations_to_19::utils::product::{first_search_hit, product_search_name};
use odoo_18_quotations_to_19::utils::{
    is_whitespace, remove_slices_from_string, strings_from, text_is, trim_whitespace_v2,
};

#[test]
fn test_rm_slices() {
    assert_eq!(remove_slices_from_string("[aaaaaaaa]aa").unwrap(), "aa");
}

#[test]
fn test_trim_whitespace() {
    assert_eq!(trim_whitespace_v2("   Hello     World!"), "Hello World!");
}

#[test]
fn trim_whitespace_handles_empty_and_blank() {
    assert_eq!(trim_whitespace_v2(""), "");
    assert_eq!(trim_whitespace_v2(" \t\n "), "");
    assert_eq!(trim_whitespace_v2("word"), "word");
}

#[test]
fn trim_whitespace_collapses_unicode_whitespace() {
    assert_eq!(trim_whitespace_v2("\u{3000}a\u{a0}\u{2003} b\r\nc\u{85}"), "a b c");
}

#[test]
fn trim_whitespace_keeps_non_whitespace() {
    assert_eq!(trim_whitespace_v2("  é  ü\u{200b}x "), "é ü\u{200b}x");
}

#[test]
fn trim_whitespace_is_idempotent() {
    let once = trim_whitespace_v2("  a   b \t c  ");
    assert_eq!(trim_whitespace_v2(&once), once);
}

#[test]
fn whitespace_matches_std() {
    for c in ['\t', '\n', '\u{b}', '\u{c}', '\r', ' ', '\u{85}', '\u{a0}', '\u{1680}', '\u{2000}',
        '\u{200a}', '\u{2028}', '\u{2029}', '\u{202f}', '\u{205f}', '\u{3000}', 'a', '\u{200b}',
        '\u{180e}', '\u{feff}', '_', '0', '\u{1f}', '\u{7f}']
    {
        assert_eq!(is_whitespace(c), c.is_whitespace(), "{:?}", c);
    }
    for code in 0u32..0x3100 {
        if let Some(c) = char::from_u32(code) {
            assert_eq!(is_whitespace(c), c.is_whitespace(), "{:?}", c);
        }
    }
}

#[test]
fn remove_slices_removes_first_bracket_only() {
    assert_eq!(remove_slices_from_string("no brackets").unwrap(), "no brackets");
    assert_eq!(remove_slices_from_string("[A] x [B] y").unwrap(), " y");
    assert_eq!(remove_slices_from_string("a [b) c] d").unwrap(), "a [b) c] d");
}

#[test]
fn product_search_name_strips_reference_and_spaces() {
    assert_eq!(product_search_name("[FURN_001]   Office   Chair ").unwrap(), "Office Chair");
    assert_eq!(product_search_name("Desk").unwrap(), "Desk");
}

#[test]
fn first_search_hit_takes_first() {
    assert_eq!(first_search_hit(&vec![]), None);
    assert_eq!(
        first_search_hit(&vec![(7, "a".to_string()), (9, "b".to_string())]),
        Some(7)
    );
}

#[test]
fn text_helpers() {
    assert!(text_is("abc", "abc"));
    assert!(!text_is("abc", "abd"));
    assert_eq!(strings_from(&["x", "y"]), vec!["x".to_string(), "y".to_string()]);
}
