use inference_runtime::text::{
    byte_prefix, chars_eq_ignore_ascii_case, chars_match_at, find_char, is_whitespace,
    parse_u64_from, push_decimal, same_text, text_contains, text_ends_with, text_of_range,
    text_starts_with, to_ascii_lower, to_ascii_lowercase, to_chars, trim, trim_end_matches_char,
    trim_start_matches,
};

fn chars(s: &str) -> Vec<char> {
    s.chars().collect()
}

#[test]
fn to_chars_keeps_every_character_in_order() {
    assert_eq!(to_chars("héllo"), vec!['h', 'é', 'l', 'l', 'o']);
    assert_eq!(to_chars(""), Vec::<char>::new());
}

#[test]
fn text_of_rebuilds_the_string() {
    assert_eq!(text_of_range(&chars("a/b.txt"), 0, 7), "a/b.txt");
    assert_eq!(text_of_range(&chars("abcdef"), 2, 4), "cd");
    assert_eq!(text_of_range(&chars("abcdef"), 3, 3), "");
}

#[test]
fn same_text_compares_characters() {
    assert!(same_text("cpu", "cpu"));
    assert!(!same_text("cpu", "cpu_arm"));
    assert!(!same_text("cpu", "CPU"));
    assert!(same_text("", ""));
}

#[test]
fn prefix_and_suffix_tests_agree_with_std() {
    let cases = [
        ("hf:org/model", "hf:"),
        ("hf", "hf:"),
        ("", ""),
        ("abc", ""),
        ("archive.tar.gz", ".tar.gz"),
        ("archive.tar.gz", ".zip"),
        ("zip", ".zip"),
        ("x.zip", ".zip"),
    ];
    for (s, p) in cases {
        assert_eq!(text_starts_with(s, p), s.starts_with(p), "{:?} starts with {:?}", s, p);
        assert_eq!(text_ends_with(s, p), s.ends_with(p), "{:?} ends with {:?}", s, p);
    }
}

#[test]
fn chars_match_at_looks_at_the_given_offset() {
    assert!(chars_match_at(&chars("abcabc"), 3, &chars("abc")));
    assert!(!chars_match_at(&chars("abcabc"), 4, &chars("abc")));
    assert!(chars_match_at(&chars("abc"), 3, &chars("")));
}

#[test]
fn text_contains_agrees_with_std() {
    let cases = [
        ("frontend/../main.js", ".."),
        ("frontend/main.js", ".."),
        ("", ""),
        ("abc", ""),
        ("", "a"),
        ("aab", "ab"),
        ("abc", "abcd"),
    ];
    for (s, n) in cases {
        assert_eq!(text_contains(s, n), s.contains(n), "{:?} contains {:?}", s, n);
    }
}

#[test]
fn push_decimal_writes_numbers_like_display() {
    for n in [0u64, 1, 9, 10, 11, 99, 100, 2048, 8080, 65535, 1_000_000, u64::MAX] {
        let mut text = String::new();
        push_decimal(&mut text, n);
        assert_eq!(text, n.to_string());
    }
    let mut out = String::from("port ");
    push_decimal(&mut out, 8080);
    assert_eq!(out, "port 8080");
}

#[test]
fn find_char_returns_first_position_or_length() {
    let v = chars("bytes 0-9/10");
    assert_eq!(find_char(&v, 0, ' '), 5);
    assert_eq!(find_char(&v, 6, '/'), 9);
    assert_eq!(find_char(&v, 10, '/'), v.len());
    assert_eq!(find_char(&v, v.len(), 'b'), v.len());
}

#[test]
fn parse_u64_agrees_with_std() {
    let cases = [
        "0",
        "1234",
        "+7",
        "+",
        "",
        "-1",
        " 1",
        "1 ",
        "12a",
        "007",
        "18446744073709551615",
        "18446744073709551616",
        "99999999999999999999999",
        "++1",
    ];
    for s in cases {
        assert_eq!(parse_u64_from(&chars(s), 0), s.parse::<u64>().ok(), "parsing {:?}", s);
    }
    assert_eq!(parse_u64_from(&chars("total=42"), 6), Some(42));
}

#[test]
fn whitespace_is_what_std_calls_whitespace() {
    let mut code = 0u32;
    while code <= 0x10FFFF {
        if let Some(c) = char::from_u32(code) {
            assert_eq!(is_whitespace(c), c.is_whitespace(), "U+{:04X}", code);
        }
        code += 1;
    }
}

#[test]
fn trim_agrees_with_std() {
    let cases = ["", " ", "  1234\r\n", "a b", "\t a \u{3000}", "\u{a0}x\u{2003}", "   ", "x"];
    for s in cases {
        assert_eq!(trim(s), s.trim(), "trimming {:?}", s);
    }
}

#[test]
fn ascii_case_folding_leaves_other_characters_alone() {
    assert_eq!(to_ascii_lower('A'), 'a');
    assert_eq!(to_ascii_lower('Z'), 'z');
    assert_eq!(to_ascii_lower('a'), 'a');
    assert_eq!(to_ascii_lower('['), '[');
    assert_eq!(to_ascii_lower('@'), '@');
    assert_eq!(to_ascii_lower('É'), 'É');
    assert_eq!(to_ascii_lowercase("Frontend/Main.JS"), "frontend/main.js");
    assert_eq!(to_ascii_lowercase("ÉCOLE.MJS"), "École.mjs");
}

#[test]
fn eq_ignore_ascii_case_agrees_with_std() {
    let cases = [
        ("llama-server.exe", "LLAMA-SERVER.EXE"),
        ("Ollama", "ollama"),
        ("ollama", "ollamA "),
        ("é", "É"),
        ("", ""),
        ("k", "\u{212a}"),
    ];
    for (a, b) in cases {
        assert_eq!(
            chars_eq_ignore_ascii_case(&chars(a), &chars(b)),
            a.eq_ignore_ascii_case(b),
            "{:?} vs {:?}",
            a,
            b
        );
    }
}

#[test]
fn trim_start_matches_removes_every_repetition() {
    let cases = [("hf:org/model", "hf:"), ("hf:hf:x", "hf:"), ("hf", "hf:"), ("", "hf:"), ("abc", "")];
    for (s, p) in cases {
        assert_eq!(trim_start_matches(s, p), s.trim_start_matches(p), "{:?} without {:?}", s, p);
    }
}

#[test]
fn trim_end_matches_char_removes_the_whole_run() {
    for s in ["http://h///", "http://h", "", "///", "a/b/"] {
        assert_eq!(trim_end_matches_char(s, '/'), s.trim_end_matches('/'), "{:?}", s);
    }
}

#[test]
fn byte_prefix_stops_at_a_character_boundary() {
    assert_eq!(byte_prefix("abcdef", 3), "abc");
    assert_eq!(byte_prefix("abcdef", 0), "");
    assert_eq!(byte_prefix("éé", 1), "");
    assert_eq!(byte_prefix("éé", 2), "é");
    assert_eq!(byte_prefix("éé", 3), "é");
    assert_eq!(byte_prefix("a€b", 3), "a");
    assert_eq!(byte_prefix("a€b", 4), "a€");
}
