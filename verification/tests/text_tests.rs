use foundry_mcp::text::chars_of;
use foundry_mcp::text::contains;
use foundry_mcp::text::eq_ignore_ascii_case;
use foundry_mcp::text::i64_to_string;
use foundry_mcp::text::is_whitespace;
use foundry_mcp::text::join_with;
use foundry_mcp::text::lines_of;
use foundry_mcp::text::parse_u64;
use foundry_mcp::text::split_char;
use foundry_mcp::text::starts_with;
use foundry_mcp::text::str_eq;
use foundry_mcp::text::trimmed;
use foundry_mcp::text::u64_to_string;

fn strings(items: &[&str]) -> Vec<String> {
    items.iter().map(|s| s.to_string()).collect()
}

#[test]
fn chars_and_equality() {
    assert_eq!(chars_of("a\u{279c}b"), vec!['a', '\u{279c}', 'b']);
    assert!(chars_of("").is_empty());
    assert!(str_eq("", ""));
    assert!(str_eq("anvil", "anvil"));
    assert!(!str_eq("anvil", "anvi"));
    assert!(!str_eq("anvil", "anvim"));
    assert_eq!(foundry_mcp::text::concat("ab", "cd"), "abcd");
}

#[test]
fn prefixes_and_infixes() {
    assert!(starts_with("https://x", "https://"));
    assert!(starts_with("x", ""));
    assert!(!starts_with("http", "https://"));
    assert!(!starts_with("", "a"));
    assert!(contains("Welcome to Chisel!", "Welcome to Chisel"));
    assert!(contains("abc", ""));
    assert!(contains("", ""));
    assert!(contains("abc", "c"));
    assert!(contains("abc", "abc"));
    assert!(!contains("abc", "abcd"));
    assert!(!contains("abc", "ac"));
    assert!(!contains("", "a"));
}

#[test]
fn split_matches_std() {
    for s in ["", "_", "a", "a_b", "_a", "a_", "a__b", "___", "cast_block___number"] {
        let expected: Vec<String> = s.split('_').map(|p| p.to_string()).collect();
        assert_eq!(split_char(s, '_'), expected, "{:?}", s);
    }
    assert_eq!(split_char("a\u{279c}b\u{279c}", '\u{279c}'), strings(&["a", "b", ""]));
}

#[test]
fn join_matches_std() {
    assert_eq!(join_with(&strings(&[]), "-"), "");
    assert_eq!(join_with(&strings(&["a"]), "-"), "a");
    assert_eq!(join_with(&strings(&["a", "b", "c"]), ", "), "a, b, c");
    assert_eq!(join_with(&strings(&["", ""]), "\n"), "\n");
}

#[test]
fn split_then_join_gives_the_string_back() {
    for s in ["", "_", "a_b", "__a__", "forge_clean_cache"] {
        assert_eq!(join_with(&split_char(s, '_'), "_"), s);
    }
}

#[test]
fn trim_matches_std() {
    for s in ["", " ", "a", "  a b \t\n", "\u{a0}x\u{2003}", "\r\n", " \u{279c} "] {
        assert_eq!(trimmed(s), s.trim(), "{:?}", s);
    }
}

#[test]
fn lines_match_std() {
    for s in [
        "",
        "\n",
        "a",
        "a\n",
        "a\nb",
        "a\r\nb\r\n",
        "a\rb\n",
        "a\r",
        "\n\n",
        "a\n\nb\n",
        "\r\n\r",
        "x\r\r\ny",
    ] {
        let expected: Vec<String> = s.lines().map(|l| l.to_string()).collect();
        assert_eq!(lines_of(s), expected, "{:?}", s);
    }
}

#[test]
fn decimal_rendering() {
    assert_eq!(u64_to_string(0), "0");
    assert_eq!(u64_to_string(7), "7");
    assert_eq!(u64_to_string(10), "10");
    assert_eq!(u64_to_string(8545), "8545");
    assert_eq!(u64_to_string(u64::MAX), "18446744073709551615");
    assert_eq!(i64_to_string(0), "0");
    assert_eq!(i64_to_string(-1), "-1");
    assert_eq!(i64_to_string(42), "42");
    assert_eq!(i64_to_string(i64::MAX), "9223372036854775807");
    assert_eq!(i64_to_string(i64::MIN), "-9223372036854775808");
}

#[test]
fn number_parsing_matches_std() {
    for s in [
        "",
        "+",
        "-",
        "0",
        "+0",
        "-0",
        "007",
        "1",
        "42",
        "+42",
        "++42",
        "4 2",
        " 42",
        "42 ",
        "4a",
        "0x10",
        "18446744073709551615",
        "18446744073709551616",
        "99999999999999999999999",
        "1844674407370955161",
        "\u{661}",
    ] {
        assert_eq!(parse_u64(s), s.parse::<u64>().ok(), "{:?}", s);
    }
}

#[test]
fn ascii_case_is_ignored_and_nothing_else() {
    assert!(eq_ignore_ascii_case("Ethereum", "eTHEREUM"));
    assert!(eq_ignore_ascii_case("base-sepolia", "BASE-SEPOLIA"));
    assert!(eq_ignore_ascii_case("", ""));
    assert!(!eq_ignore_ascii_case("base", "bases"));
    assert!(!eq_ignore_ascii_case("a-b", "a_b"));
    assert!(!eq_ignore_ascii_case("\u{e9}", "\u{c9}"));
    assert!(!eq_ignore_ascii_case("@", "`"));
    assert!(!eq_ignore_ascii_case("[", "{"));
}

#[test]
fn white_space_is_what_std_calls_white_space() {
    for n in 0..=0x10FFFFu32 {
        if let Some(c) = char::from_u32(n) {
            assert_eq!(is_whitespace(c), c.is_whitespace(), "U+{:04X}", n);
        }
    }
    assert!(is_whitespace(' '));
    assert!(is_whitespace('\t'));
    assert!(is_whitespace('\n'));
    assert!(is_whitespace('\u{b}'));
    assert!(is_whitespace('\u{a0}'));
    assert!(is_whitespace('\u{3000}'));
    assert!(!is_whitespace('\u{8}'));
    assert!(!is_whitespace('\u{200b}'));
    assert!(!is_whitespace('\u{279c}'));
    assert!(!is_whitespace('a'));
}
