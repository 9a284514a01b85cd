use persona_bot::text::{
    chars_of, concat2, concat3, contains, contains_any, contains_char, decimal_string,
    eq_ignore_ascii_case, fill_placeholder, find, join_words, parse_u64, replace_first,
    same_text, starts_with, starts_with_any, string_of, trim_to_bare_word, trim_trailing_marks,
};

#[test]
fn characters_round_trip() {
    let v = chars_of("héllo 🚀");
    assert_eq!(v, vec!['h', 'é', 'l', 'l', 'o', ' ', '🚀']);
    assert_eq!(string_of(&v), "héllo 🚀");
    assert_eq!(string_of(&Vec::new()), "");
}

#[test]
fn concatenation() {
    assert_eq!(concat2("ab", "cd"), "abcd");
    assert_eq!(concat2("", ""), "");
    assert_eq!(concat3("a", "-", "b"), "a-b");
}

#[test]
fn equality_of_texts() {
    assert!(same_text("abc", "abc"));
    assert!(!same_text("abc", "abd"));
    assert!(!same_text("abc", "ab"));
    assert!(same_text("", ""));
}

#[test]
fn find_counts_characters_and_returns_the_leftmost_place() {
    assert_eq!(find("hello world", "o"), Some(4));
    assert_eq!(find("hello world", "world"), Some(6));
    assert_eq!(find("hello", ""), Some(0));
    assert_eq!(find("", ""), Some(0));
    assert_eq!(find("", "a"), None);
    assert_eq!(find("abc", "abcd"), None);
    assert_eq!(find("aaa", "aa"), Some(0));
    assert_eq!(find("é🚀x", "x"), Some(2));
}

#[test]
fn containment_and_prefixes() {
    assert!(contains("rate limit 429 hit", "429"));
    assert!(!contains("rate limit 42 9", "429"));
    assert!(contains("abc", ""));
    assert!(contains_char("what?", '?'));
    assert!(!contains_char("what", '?'));
    assert!(starts_with("what is", "what"));
    assert!(!starts_with("so what", "what"));
    assert!(starts_with("x", ""));
    assert!(!starts_with("wha", "what"));
    assert!(contains_any("a ticker please", &vec!["symbol", "ticker"]));
    assert!(!contains_any("nothing", &vec!["symbol", "ticker"]));
    assert!(!contains_any("nothing", &vec![]));
    assert!(starts_with_any("just do it", &vec!["another", "just"]));
    assert!(!starts_with_any("do it just", &vec!["another", "just"]));
}

#[test]
fn replace_first_touches_only_the_leftmost_occurrence() {
    assert_eq!(replace_first("ser ser ser", "ser", "ngl"), "ngl ser ser");
    assert_eq!(replace_first("abc", "x", "y"), "abc");
    assert_eq!(replace_first("abc", "", "-"), "-abc");
    assert_eq!(replace_first("abc", "abc", ""), "");
    assert_eq!(replace_first("xabc", "abc", "12345"), "x12345");
}

#[test]
fn fill_placeholder_replaces_every_marker() {
    assert_eq!(fill_placeholder("contract: {} \n\nape", "So1"), "contract: So1 \n\nape");
    assert_eq!(fill_placeholder("${} and ${}", "WIF"), "$WIF and $WIF");
    assert_eq!(fill_placeholder("no marker", "x"), "no marker");
    assert_eq!(fill_placeholder("{}", ""), "");
    assert_eq!(fill_placeholder("{{}}", "x"), "{x}");
    assert_eq!(fill_placeholder("{", "x"), "{");
    assert_eq!(fill_placeholder("{}{}", "{}"), "{}{}");
}

#[test]
fn ascii_case_is_ignored_and_nothing_else() {
    assert!(eq_ignore_ascii_case("TeSt", "tEsT"));
    assert!(eq_ignore_ascii_case("", ""));
    assert!(!eq_ignore_ascii_case("test", "tests"));
    assert!(!eq_ignore_ascii_case("É", "é"));
    assert!(!eq_ignore_ascii_case("a1", "a2"));
    assert!(!eq_ignore_ascii_case("[", "{"));
    assert!(!eq_ignore_ascii_case("@", "`"));
}

#[test]
fn join_puts_single_spaces() {
    let words: Vec<String> = vec!["a".into(), "b".into(), "c".into(), "d".into()];
    assert_eq!(join_words(&words, 0, 3), "a b c");
    assert_eq!(join_words(&words, 1, 3), "b c d");
    assert_eq!(join_words(&words, 3, 1), "d");
    assert_eq!(join_words(&words, 2, 0), "");
}

#[test]
fn trimming_of_marks() {
    assert_eq!(string_of(&trim_trailing_marks(&chars_of("WIF?!"))), "WIF");
    assert_eq!(string_of(&trim_trailing_marks(&chars_of("W.I.F"))), "W.I.F");
    assert_eq!(string_of(&trim_trailing_marks(&chars_of("?!"))), "");
    assert_eq!(string_of(&trim_trailing_marks(&chars_of("a_"))), "a");
    assert_eq!(string_of(&trim_to_bare_word(&chars_of("(bonk_inu)."))), "bonk_inu");
    assert_eq!(string_of(&trim_to_bare_word(&chars_of("_a_"))), "_a_");
    assert_eq!(string_of(&trim_to_bare_word(&chars_of("..."))), "");
    assert_eq!(string_of(&trim_to_bare_word(&chars_of(""))), "");
    assert_eq!(string_of(&trim_to_bare_word(&chars_of("$a-b$"))), "a-b");
}

#[test]
fn numerals() {
    assert_eq!(decimal_string(0), "0");
    assert_eq!(decimal_string(7), "7");
    assert_eq!(decimal_string(10), "10");
    assert_eq!(decimal_string(1234567890), "1234567890");
    assert_eq!(decimal_string(u64::MAX), "18446744073709551615");
    assert_eq!(parse_u64("0"), Some(0));
    assert_eq!(parse_u64("007"), Some(7));
    assert_eq!(parse_u64("+15"), Some(15));
    assert_eq!(parse_u64("18446744073709551615"), Some(u64::MAX));
    assert_eq!(parse_u64("18446744073709551616"), None);
    assert_eq!(parse_u64("99999999999999999999999"), None);
    assert_eq!(parse_u64(""), None);
    assert_eq!(parse_u64("+"), None);
    assert_eq!(parse_u64("-1"), None);
    assert_eq!(parse_u64("12a"), None);
    assert_eq!(parse_u64(" 12"), None);
    assert_eq!(parse_u64("++1"), None);
    assert_eq!(parse_u64("１２"), None);
}

#[test]
fn numerals_agree_with_the_standard_library() {
    for s in ["1", "+1", "42", "0000", "18446744073709551615", "18446744073709551616", "x", ""] {
        assert_eq!(parse_u64(s), s.parse::<u64>().ok());
    }
    for n in [0u64, 9, 10, 99, 100, 12345, u64::MAX] {
        assert_eq!(decimal_string(n), n.to_string());
    }
}
