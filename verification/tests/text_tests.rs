use lightpool_clob_index::indexer::store::question_from_hash;
use lightpool_clob_index::spot_market::normalize_spot_market_key;
use lightpool_clob_index::text::{eq_ignore_ascii_case, str_eq};

#[test]
fn trim_removes_unicode_whitespace_at_both_ends() {
    assert_eq!(normalize_spot_market_key("  \t hello world \n", None, None), "hello world");
    assert_eq!(normalize_spot_market_key("\u{3000}x\u{a0}", None, None), "x");
    assert_eq!(normalize_spot_market_key("   ", None, None), "");
    assert_eq!(normalize_spot_market_key("a b", None, None), "a b");
}

#[test]
fn str_eq_compares_whole_strings() {
    assert!(str_eq("order_filled", "order_filled"));
    assert!(!str_eq("order_filled", "order_fille"));
    assert!(!str_eq("abc", "abd"));
    assert!(str_eq("", ""));
    assert!(str_eq("é", "é"));
}

#[test]
fn eq_ignore_ascii_case_folds_only_ascii_letters() {
    assert!(eq_ignore_ascii_case("0xAbCd", "0XaBcD"));
    assert!(eq_ignore_ascii_case("abc", "abc"));
    assert!(!eq_ignore_ascii_case("abc", "abd"));
    assert!(!eq_ignore_ascii_case("abc", "abcd"));
    assert!(!eq_ignore_ascii_case("É", "é"));
}

#[test]
fn eq_ignore_ascii_case_is_symmetric_and_reflexive() {
    for (a, b) in [("Alice", "aLICE"), ("x", "y"), ("", ""), ("0xFF", "0xff")] {
        assert_eq!(eq_ignore_ascii_case(a, b), eq_ignore_ascii_case(b, a));
        assert!(eq_ignore_ascii_case(a, a));
    }
}

#[test]
fn question_text_replaces_invalid_utf8_bytes() {
    let mut h = [0u8; 32];
    h[0] = 0x61;
    h[1] = 0xff;
    h[2] = 0x62;
    assert_eq!(question_from_hash(&h), "a\u{fffd}b");
}
