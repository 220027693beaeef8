use pairing_core::text::{
    char_len, str_ci_contains, str_ci_eq, str_ci_has_prefix, str_contains_char, str_eq,
    str_has_prefix, str_suffix_from, usize_to_dec,
};

#[test]
fn decimal_rendering_is_exact() {
    assert_eq!(usize_to_dec(0), "0");
    assert_eq!(usize_to_dec(7), "7");
    assert_eq!(usize_to_dec(10), "10");
    assert_eq!(usize_to_dec(8090), "8090");
    assert_eq!(usize_to_dec(65535), "65535");
}

#[test]
fn equality_helpers_compare_content() {
    assert!(str_eq("abc", "abc"));
    assert!(!str_eq("abc", "abd"));
    assert!(!str_eq("abc", "ABC"));
    assert!(str_ci_eq("abc", "ABC"));
    assert!(!str_ci_eq("abc", "abcd"));
    assert!(str_ci_eq("✊", "✊"));
}

#[test]
fn prefix_and_search_helpers() {
    assert!(str_has_prefix("emote:happy", "emote:"));
    assert!(!str_has_prefix("EMOTE:happy", "emote:"));
    assert!(str_ci_has_prefix("ETH0", "eth"));
    assert!(!str_ci_has_prefix("e", "eth"));
    assert!(str_ci_contains("vmBRIDGE1", "bridge"));
    assert!(!str_ci_contains("vlan0", "bridge"));
    assert!(str_contains_char("fe80::1", ':'));
    assert!(!str_contains_char("10.0.0.1", ':'));
}

#[test]
fn suffix_counts_characters_not_bytes() {
    assert_eq!(char_len("emote:✊"), 7);
    assert_eq!(str_suffix_from("emote:✊", 6), "✊");
}
