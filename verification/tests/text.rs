use pr_mirror::text::{
    chars_of, decimal_string, is_whitespace, push_decimal, split_on, str_eq, trim_bounds,
    words_between,
};

fn word_strings(text: &str) -> Vec<String> {
    let cs = chars_of(text);
    words_between(&cs, 0, cs.len())
        .into_iter()
        .map(|w| w.into_iter().collect::<String>())
        .collect()
}

fn trimmed(text: &str) -> String {
    let cs = chars_of(text);
    let (lo, hi) = trim_bounds(&cs);
    cs[lo..hi].iter().collect()
}

#[test]
fn decimal_of_small_numbers() {
    assert_eq!(decimal_string(0), "0");
    assert_eq!(decimal_string(7), "7");
    assert_eq!(decimal_string(10), "10");
    assert_eq!(decimal_string(42), "42");
    assert_eq!(decimal_string(1005), "1005");
}

#[test]
fn decimal_of_negative_numbers() {
    assert_eq!(decimal_string(-1), "-1");
    assert_eq!(decimal_string(-120), "-120");
}

#[test]
fn decimal_of_extremes() {
    assert_eq!(decimal_string(i64::MAX), "9223372036854775807");
    assert_eq!(decimal_string(i64::MIN), "-9223372036854775808");
}

#[test]
fn push_decimal_appends() {
    let mut out = String::from("github-");
    push_decimal(&mut out, 314);
    assert_eq!(out, "github-314");
}

#[test]
fn decimal_agrees_with_std() {
    for n in [-1000i64, -11, -10, -9, 0, 9, 10, 11, 99, 100, 101, 65535, 1 << 40] {
        assert_eq!(decimal_string(n), n.to_string());
    }
}

#[test]
fn chars_of_keeps_every_character() {
    assert_eq!(chars_of("añ😀"), vec!['a', 'ñ', '😀']);
    assert_eq!(chars_of(""), Vec::<char>::new());
}

#[test]
fn str_eq_compares_contents() {
    assert!(str_eq("closed", "closed"));
    assert!(!str_eq("closed", "close"));
    assert!(!str_eq("closed", "opened"));
    assert!(str_eq("", ""));
}

#[test]
fn split_on_plain_name() {
    assert_eq!(split_on("org/repo", '/'), vec!["org".to_string(), "repo".to_string()]);
}

#[test]
fn split_on_without_separator() {
    assert_eq!(split_on("repo", '/'), vec!["repo".to_string()]);
    assert_eq!(split_on("", '/'), vec!["".to_string()]);
}

#[test]
fn split_on_keeps_empty_pieces() {
    assert_eq!(split_on("/a", '/'), vec!["".to_string(), "a".to_string()]);
    assert_eq!(split_on("a/", '/'), vec!["a".to_string(), "".to_string()]);
    assert_eq!(
        split_on("a//b", '/'),
        vec!["a".to_string(), "".to_string(), "b".to_string()]
    );
}

#[test]
fn split_on_agrees_with_std() {
    for text in ["a/b/c", "//", "x", "ü/ö", "/", "a/b/"] {
        let expected: Vec<String> = text.split('/').map(|p| p.to_string()).collect();
        assert_eq!(split_on(text, '/'), expected);
    }
}

#[test]
fn whitespace_characters() {
    for c in [' ', '\t', '\n', '\r', '\u{b}', '\u{c}', '\u{85}', '\u{a0}', '\u{2003}', '\u{3000}'] {
        assert!(is_whitespace(c));
    }
    for c in ['a', '@', '0', '\u{200b}', '\u{8}', '\u{e}'] {
        assert!(!is_whitespace(c));
    }
}

#[test]
fn whitespace_agrees_with_std() {
    for code in 0u32..0x3100 {
        if let Some(c) = char::from_u32(code) {
            assert_eq!(is_whitespace(c), c.is_whitespace());
        }
    }
}

#[test]
fn trim_drops_both_ends() {
    assert_eq!(trimmed("  @bot retry \n"), "@bot retry");
    assert_eq!(trimmed("@bot "), "@bot");
    assert_eq!(trimmed("x"), "x");
}

#[test]
fn trim_of_blank_text() {
    assert_eq!(trimmed(""), "");
    assert_eq!(trimmed(" \t\n"), "");
}

#[test]
fn words_skip_runs_of_space() {
    assert_eq!(word_strings("retry"), vec!["retry".to_string()]);
    assert_eq!(
        word_strings("  retry \t now\n"),
        vec!["retry".to_string(), "now".to_string()]
    );
    assert_eq!(word_strings(""), Vec::<String>::new());
    assert_eq!(word_strings("   "), Vec::<String>::new());
}

#[test]
fn words_of_a_range() {
    let cs = chars_of("@bot retry now");
    let found = words_between(&cs, 5, 10);
    assert_eq!(found, vec![vec!['r', 'e', 't', 'r', 'y']]);
}
