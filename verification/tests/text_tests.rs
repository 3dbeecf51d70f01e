use dsh_desktop::text::{
    decimal, lines, parse_u64, replace_all, split_char, split_once, str_eq, strip_prefix, trim,
    trim_char, trim_end, trim_start, trim_start_char, whitespace_tokens,
};

#[test]
fn trim_removes_unicode_whitespace() {
    assert_eq!(trim("\u{3000} x y \t\n"), "x y");
    assert_eq!(trim_start("  a "), "a ");
    assert_eq!(trim_end("  a \r\n"), "  a");
    assert_eq!(trim(" \u{a0}\u{2003} "), "");
}

#[test]
fn trim_char_strips_both_ends() {
    assert_eq!(trim_char("..a.b..", '.'), "a.b");
    assert_eq!(trim_char("....", '.'), "");
    assert_eq!(trim_start_char("vvv1.2", 'v'), "1.2");
}

#[test]
fn parse_u64_follows_std() {
    for s in ["0", "+12", "007", "18446744073709551615", "18446744073709551616", "-1", "+", "", " 1", "1a", "++1"] {
        assert_eq!(parse_u64(s), s.parse::<u64>().ok(), "input {s:?}");
    }
    assert_eq!(parse_u64("+12"), Some(12));
    assert_eq!(parse_u64("18446744073709551616"), None);
}

#[test]
fn decimal_renders_numbers() {
    assert_eq!(decimal(0), "0");
    assert_eq!(decimal(9), "9");
    assert_eq!(decimal(10), "10");
    assert_eq!(decimal(u64::MAX), u64::MAX.to_string());
}

#[test]
fn lines_match_std_lines() {
    for s in ["a\r\nb\n\nc\r", "", "\n", "a\n", "x\r\n\r\n", "one"] {
        let ours = lines(s);
        let std: Vec<String> = s.lines().map(|l| l.to_string()).collect();
        assert_eq!(ours, std, "input {s:?}");
    }
}

#[test]
fn split_and_tokens_match_std() {
    assert_eq!(split_char("a..b", '.'), vec!["a", "", "b"]);
    assert_eq!(split_char("", '.'), vec![""]);
    assert_eq!(whitespace_tokens(" a  b\tc \u{3000}d "), vec!["a", "b", "c", "d"]);
    assert!(whitespace_tokens("   ").is_empty());
    assert_eq!(split_once("a-b-c", '-'), Some(("a", "b-c")));
    assert_eq!(split_once("abc", '-'), None);
}

#[test]
fn prefix_equality_and_replace() {
    assert_eq!(strip_prefix(">=1.0", ">="), Some("1.0"));
    assert_eq!(strip_prefix(">1.0", ">="), None);
    assert!(str_eq("abc", "abc"));
    assert!(!str_eq("abc", "abd"));
    assert_eq!(replace_all("a__X__b__X__", "__X__", "-"), "a-b-");
    assert_eq!(replace_all("aaa", "aa", "b"), "ba");
}
