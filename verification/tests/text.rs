use tgreddit::text::{
    chars_of, concat2, concat3, decimal_string, join, parse_unsigned, replace, same_text,
    signed_decimal_string, string_of, trim_end,
};

#[test]
fn replace_scans_from_the_left_without_overlap() {
    assert_eq!(replace("aaa", "aa", "b"), "ba");
    assert_eq!(replace("abcabc", "bc", ""), "aa");
    assert_eq!(replace("abc", "x", "y"), "abc");
    assert_eq!(replace("", "x", "y"), "");
    assert_eq!(replace("abc", "", "y"), "abc");
    assert_eq!(replace("a&amp;b&amp;", "&amp;", "&"), "a&b&");
    assert_eq!(replace("ab", "abc", "x"), "ab");
    assert_eq!(replace("\u{e9}t\u{e9}", "\u{e9}", "e"), "ete");
}

#[test]
fn decimal_strings_are_exact() {
    assert_eq!(decimal_string(0), "0");
    assert_eq!(decimal_string(7), "7");
    assert_eq!(decimal_string(10), "10");
    assert_eq!(decimal_string(1234567890), "1234567890");
    assert_eq!(decimal_string(u64::MAX), "18446744073709551615");
    assert_eq!(signed_decimal_string(0), "0");
    assert_eq!(signed_decimal_string(-1), "-1");
    assert_eq!(signed_decimal_string(-1001234567890), "-1001234567890");
    assert_eq!(signed_decimal_string(i64::MAX), "9223372036854775807");
    assert_eq!(signed_decimal_string(i64::MIN), "-9223372036854775808");
}

#[test]
fn unsigned_numbers_parse_like_std() {
    for text in ["0", "5", "+5", "007", "65535", "65536", "4294967295", "4294967296", "", "+", "-1", "1 ", " 1", "1_0", "١٢", "99999999999999999999999", "+-1", "++1", "18446744073709551615", "18446744073709551616", "18446744073709551620", "000018446744073709551615"] {
        assert_eq!(
            parse_unsigned(text, u32::MAX as u64),
            text.parse::<u32>().ok().map(|n| n as u64),
            "{text:?} as u32"
        );
        assert_eq!(
            parse_unsigned(text, u16::MAX as u64),
            text.parse::<u16>().ok().map(|n| n as u64),
            "{text:?} as u16"
        );
        assert_eq!(parse_unsigned(text, u64::MAX), text.parse::<u64>().ok(), "{text:?} as u64");
    }
}

#[test]
fn unsigned_numbers_respect_small_bounds() {
    assert_eq!(parse_unsigned("0", 0), Some(0));
    assert_eq!(parse_unsigned("1", 0), None);
    assert_eq!(parse_unsigned("9", 9), Some(9));
    assert_eq!(parse_unsigned("10", 9), None);
    assert_eq!(parse_unsigned("0000", 0), Some(0));
}

#[test]
fn join_puts_the_separator_between() {
    let parts = vec!["a".to_string(), "".to_string(), "c".to_string()];
    assert_eq!(join(&parts, ", "), "a, , c");
    assert_eq!(join(&vec!["only".to_string()], ", "), "only");
    assert_eq!(join(&vec![], ", "), "");
}

#[test]
fn trim_end_cuts_unicode_whitespace() {
    assert_eq!(trim_end("a b \t\n"), "a b");
    assert_eq!(trim_end("  "), "");
    assert_eq!(trim_end(""), "");
    assert_eq!(trim_end(" a"), " a");
    assert_eq!(trim_end("a\u{2003}\u{a0}"), "a");
}

#[test]
fn small_helpers_agree_with_std() {
    assert_eq!(chars_of("h\u{e9}"), vec!['h', '\u{e9}']);
    assert_eq!(string_of(&vec!['a', 'b', 'c'], 1, 3), "bc");
    assert_eq!(string_of(&vec!['a', 'b', 'c'], 2, 2), "");
    assert_eq!(concat2("ab", "cd"), "abcd");
    assert_eq!(concat3("a", "", "c"), "ac");
    assert!(same_text("x", "x"));
    assert!(!same_text("x", "X"));
}

fn words(alphabet: &[char], max_len: usize) -> Vec<String> {
    let mut all = vec![String::new()];
    let mut last = vec![String::new()];
    for _ in 0..max_len {
        let mut next = vec![];
        for w in &last {
            for c in alphabet {
                let mut longer = w.clone();
                longer.push(*c);
                next.push(longer);
            }
        }
        all.extend(next.iter().cloned());
        last = next;
    }
    all
}

#[test]
fn replace_agrees_with_std_on_short_words() {
    let texts = words(&['a', 'b', '/'], 6);
    let patterns = words(&['a', 'b', '/'], 3);
    for text in &texts {
        for pattern in patterns.iter().filter(|p| !p.is_empty()) {
            for to in ["", "x", "ab"] {
                assert_eq!(
                    replace(text, pattern, to),
                    text.replace(pattern.as_str(), to),
                    "{text:?}: {pattern:?} -> {to:?}"
                );
            }
        }
    }
}

#[test]
fn trim_end_and_decimal_agree_with_std() {
    for text in words(&['a', ' ', '\t', '\u{3000}'], 5) {
        assert_eq!(trim_end(&text), text.trim_end(), "{text:?}");
    }
    let mut n: u64 = 0;
    while n < 100_000 {
        assert_eq!(decimal_string(n), n.to_string());
        n += if n < 1100 { 1 } else { 977 };
    }
    for shift in 0..64 {
        let n = 1u64 << shift;
        assert_eq!(decimal_string(n), n.to_string());
        assert_eq!(decimal_string(n - 1), (n - 1).to_string());
        assert_eq!(signed_decimal_string(-((n >> 1) as i64)), (-((n >> 1) as i64)).to_string());
    }
}
