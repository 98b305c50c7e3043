use ai_voice_server::text::{
    contains_str, decimal_string, parse_i32_str, parse_u16, parse_usize, replace_str,
    split_chars, starts_with, str_equals, string_from_chars, strip_prefix_repeated, trim_str,
};

#[test]
fn trimming_follows_unicode_white_space() {
    assert_eq!(trim_str("  cuda \t\n"), "cuda");
    assert_eq!(trim_str("\u{3000}vulkan\u{a0}"), "vulkan");
    assert_eq!(trim_str("   "), "");
    assert_eq!(trim_str("a b"), "a b");
}

#[test]
fn replacing_is_left_to_right_and_global() {
    assert_eq!(replace_str("ws://h:3000/stream", "ws://", "http://"), "http://h:3000/stream");
    assert_eq!(replace_str("aaa", "aa", "b"), "ba");
    assert_eq!(replace_str("x/stream/stream", "/stream", ""), "x");
}

#[test]
fn splitting_keeps_empty_pieces() {
    let chars: Vec<char> = "a,,b,".chars().collect();
    let parts: Vec<String> = split_chars(&chars, ',').iter().map(|p| p.iter().collect()).collect();
    assert_eq!(parts, vec!["a", "", "b", ""]);
    let none: Vec<char> = Vec::new();
    assert_eq!(split_chars(&none, ',').len(), 1);
}

#[test]
fn numbers_parse_like_from_str() {
    assert_eq!(parse_u16("3000"), Some(3000));
    assert_eq!(parse_u16("+0"), Some(0));
    assert_eq!(parse_u16("+"), None);
    assert_eq!(parse_u16("-0"), None);
    assert_eq!(parse_u16("70000"), None);
    assert_eq!(parse_usize("10"), Some(10));
    assert_eq!(parse_usize("1e3"), None);
    assert_eq!(parse_i32_str("-2147483648"), Some(i32::MIN));
    assert_eq!(parse_i32_str("2147483647"), Some(i32::MAX));
    assert_eq!(parse_i32_str("2147483648"), None);
    assert_eq!(parse_i32_str("-"), None);
    assert_eq!(parse_i32_str("-12"), Some(-12));
    for s in ["0", "007", "65535", "abc", "", "+5", "-5", "99999999999"] {
        assert_eq!(parse_u16(s), s.parse::<u16>().ok());
        assert_eq!(parse_i32_str(s), s.parse::<i32>().ok());
    }
}

#[test]
fn decimal_writing() {
    assert_eq!(decimal_string(0), "0");
    assert_eq!(decimal_string(3000), "3000");
    assert_eq!(decimal_string(u128::MAX), u128::MAX.to_string());
}

#[test]
fn comparisons() {
    assert!(str_equals("cpu", "cpu"));
    assert!(!str_equals("cpu", "cpus"));
    assert!(starts_with("toast_test_ok_12", "toast_test_ok_"));
    assert!(!starts_with("toast", "toast_test_ok_"));
    assert!(contains_str("# SERVER_HOST=1", "SERVER_HOST"));
    assert!(!contains_str("SERVER", "SERVER_HOST"));
    assert_eq!(strip_prefix_repeated("abab1", "ab"), "1");
}

#[test]
fn strings_from_characters() {
    assert_eq!(string_from_chars(&['σ', 'a', ' ', '1']), "σa 1");
    assert_eq!(string_from_chars(&[]), "");
}
