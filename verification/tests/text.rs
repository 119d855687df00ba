use qlira_web_server::text::{
    append, append_str, char_is_whitespace, concat_str, contains_str, eq_ignore_ascii_case, equal,
    equal_str, find_first, from_chars, join_with, leading_whitespace, lines_of, matches_at,
    parse_number, push_decimal, push_signed_decimal, second_word_of, split_on, starts_with,
    starts_with_str, str_eq, subrange, to_ascii_lower, to_ascii_upper, to_chars, to_lower_char,
    to_upper_char, trimmed, without_prefixes,
};

fn chars(s: &str) -> Vec<char> {
    s.chars().collect()
}

fn text(v: &[char]) -> String {
    v.iter().collect()
}

#[test]
fn chars_and_strings_convert_both_ways() {
    assert_eq!(to_chars("héllo"), vec!['h', 'é', 'l', 'l', 'o']);
    assert_eq!(to_chars(""), Vec::<char>::new());
    assert_eq!(from_chars(&['a', 'ß', '\n']), "aß\n");
    assert_eq!(from_chars(&to_chars("Grüße, 世界")), "Grüße, 世界");
}

#[test]
fn append_extends_at_the_end() {
    let mut out = chars("ab");
    append(&mut out, &chars("cd"));
    append_str(&mut out, "ef");
    assert_eq!(text(&out), "abcdef");
    assert_eq!(concat_str("config: ", "ok"), "config: ok");
}

#[test]
fn subrange_copies_the_middle() {
    assert_eq!(text(&subrange(&chars("abcdef"), 2, 4)), "cd");
    assert_eq!(text(&subrange(&chars("abcdef"), 3, 3)), "");
    assert_eq!(text(&subrange(&chars("abcdef"), 0, 6)), "abcdef");
}

#[test]
fn equality_compares_every_character() {
    assert!(equal(&chars("abc"), &chars("abc")));
    assert!(!equal(&chars("abc"), &chars("abd")));
    assert!(!equal(&chars("abc"), &chars("ab")));
    assert!(equal(&[], &[]));
    assert!(equal_str(&chars("port"), "port"));
    assert!(!equal_str(&chars("port"), "ports"));
    assert!(str_eq("server", "server"));
    assert!(!str_eq("server", "Server"));
}

#[test]
fn matching_and_searching_find_the_first_occurrence() {
    let s = chars("abcabc");
    assert!(matches_at(&s, &chars("bc"), 1));
    assert!(!matches_at(&s, &chars("bc"), 2));
    assert!(!matches_at(&s, &chars("bc"), 5));
    assert!(matches_at(&s, &[], 6));
    assert!(!matches_at(&s, &[], 7));
    assert!(starts_with(&s, &chars("abc")));
    assert!(!starts_with(&s, &chars("bc")));
    assert!(starts_with_str(&s, ""));
    assert_eq!(find_first(&s, &chars("bc")), Some(1));
    assert_eq!(find_first(&s, &chars("ca")), Some(2));
    assert_eq!(find_first(&s, &chars("cb")), None);
    assert_eq!(find_first(&s, &[]), Some(0));
    assert_eq!(find_first(&chars("ab"), &chars("abc")), None);
    assert_eq!(find_first(&chars("a\r\n\r\nb\r\n\r\n"), &chars("\r\n\r\n")), Some(1));
    assert!(contains_str(&s, "cab"));
    assert!(!contains_str(&s, "cc"));
}

#[test]
fn ascii_case_mapping_leaves_other_characters() {
    assert_eq!(to_upper_char('a'), 'A');
    assert_eq!(to_upper_char('z'), 'Z');
    assert_eq!(to_upper_char('A'), 'A');
    assert_eq!(to_upper_char('-'), '-');
    assert_eq!(to_upper_char('é'), 'é');
    assert_eq!(to_lower_char('Q'), 'q');
    assert_eq!(to_lower_char('q'), 'q');
    assert_eq!(to_lower_char('É'), 'É');
    assert_eq!(text(&to_ascii_lower(&chars("GZip, BR; É"))), "gzip, br; É");
    assert_eq!(text(&to_ascii_upper(&chars("x-test_header é"))), "X-TEST_HEADER é");
    assert!(eq_ignore_ascii_case(&chars("content-TYPE"), &chars("Content-Type")));
    assert!(!eq_ignore_ascii_case(&chars("content-type"), &chars("content_type")));
}

#[test]
fn ascii_case_mapping_agrees_with_the_standard_library() {
    let mut code: u32 = 0;
    while code < 0x500 {
        if let Some(c) = char::from_u32(code) {
            assert_eq!(to_upper_char(c), c.to_ascii_uppercase());
            assert_eq!(to_lower_char(c), c.to_ascii_lowercase());
        }
        code += 1;
    }
}

#[test]
fn white_space_is_the_unicode_property() {
    let mut code: u32 = 0;
    while code <= 0x10FFFF {
        if let Some(c) = char::from_u32(code) {
            assert_eq!(char_is_whitespace(c), c.is_whitespace(), "U+{:04X}", code);
        }
        code += 1;
    }
}

#[test]
fn trimming_agrees_with_the_standard_library() {
    let samples = [
        "",
        " ",
        "  a  ",
        "\t\r\n x y \u{3000}",
        "no-space",
        " \u{a0}lead",
        "trail\u{2028}",
        "\u{85}",
        " a\u{200b} ",
    ];
    for s in samples {
        assert_eq!(text(&trimmed(&chars(s))), s.trim(), "{:?}", s);
        let n = leading_whitespace(&chars(s));
        assert_eq!(text(&chars(s)[n..]), s.trim_start(), "{:?}", s);
    }
}

#[test]
fn splitting_agrees_with_the_standard_library() {
    let samples = ["", "a", ":", "a:b", "a::b", ":a:", "css:3600", "a:b:c", "::"];
    for s in samples {
        let ours: Vec<String> = split_on(&chars(s), ':').iter().map(|p| text(p)).collect();
        let theirs: Vec<String> = s.split(':').map(|p| p.to_string()).collect();
        assert_eq!(ours, theirs, "{:?}", s);
    }
}

#[test]
fn joining_puts_the_separator_between_neighbours() {
    assert_eq!(text(&join_with(&vec![], '/')), "");
    assert_eq!(text(&join_with(&vec![chars("a")], '/')), "a");
    assert_eq!(text(&join_with(&vec![chars("a"), chars("b"), chars("c")], '/')), "a/b/c");
    assert_eq!(text(&join_with(&vec![chars(""), chars("")], '/')), "/");
}

#[test]
fn lines_agree_with_the_standard_library() {
    let samples = [
        "",
        "a",
        "a\n",
        "a\r\n",
        "a\r\nb",
        "a\nb\n",
        "\n",
        "\r\n",
        "\n\n",
        "a\r",
        "a\r\r\n",
        "Status: 201 Created\r\nContent-Type: text/plain",
        "x\n\ny",
        "last\r\nline\r",
    ];
    for s in samples {
        let ours: Vec<String> = lines_of(&chars(s)).iter().map(|p| text(p)).collect();
        let theirs: Vec<String> = s.lines().map(|p| p.to_string()).collect();
        assert_eq!(ours, theirs, "{:?}", s);
    }
}

#[test]
fn decimal_writing_agrees_with_the_standard_library() {
    let samples: [u64; 9] = [0, 1, 9, 10, 99, 100, 8080, 31536000, u64::MAX];
    for n in samples {
        let mut out = Vec::new();
        push_decimal(&mut out, n);
        assert_eq!(text(&out), n.to_string());
    }
    let signed: [i32; 7] = [0, 1, -1, 255, -255, i32::MAX, i32::MIN];
    for n in signed {
        let mut out = chars("exit status: ");
        push_signed_decimal(&mut out, n);
        assert_eq!(text(&out), format!("exit status: {}", n));
    }
}

#[test]
fn number_reading_agrees_with_the_standard_library() {
    let samples = [
        "", "+", "-", "0", "00", "007", "+7", "-7", "+-7", "++7", "7+", " 7", "7 ", "65535",
        "65536", "065535", "4294967295", "4294967296", "18446744073709551615",
        "18446744073709551616", "99999999999999999999999", "1e3", "0x10", "１２", "8080",
    ];
    for s in samples {
        assert_eq!(
            parse_number(&chars(s), u16::MAX as u64),
            s.parse::<u16>().ok().map(|n| n as u64),
            "{:?} as u16",
            s
        );
        assert_eq!(
            parse_number(&chars(s), u32::MAX as u64),
            s.parse::<u32>().ok().map(|n| n as u64),
            "{:?} as u32",
            s
        );
        assert_eq!(parse_number(&chars(s), u64::MAX), s.parse::<u64>().ok(), "{:?} as u64", s);
    }
}

#[test]
fn second_word_agrees_with_the_standard_library() {
    let samples = [
        "",
        " ",
        "one",
        " one ",
        "one two",
        "  one   two   three ",
        "Status: 201 Created",
        "Status:201",
        "Status:\t404",
        "a\u{3000}b",
    ];
    for s in samples {
        let ours = second_word_of(&chars(s)).map(|w| text(&w));
        let theirs = s.split_whitespace().nth(1).map(|w| w.to_string());
        assert_eq!(ours, theirs, "{:?}", s);
    }
}

#[test]
fn repeated_prefixes_are_all_removed() {
    let samples = ["", "/php/", "/php/a.php", "/php//php/a.php", "/php", "a/php/b", "/php/php/"];
    for s in samples {
        assert_eq!(
            text(&without_prefixes(&chars(s), &chars("/php/"))),
            s.trim_start_matches("/php/"),
            "{:?}",
            s
        );
    }
    assert_eq!(text(&without_prefixes(&chars("aaa"), &[])), "aaa");
    assert_eq!(text(&without_prefixes(&chars("aaab"), &chars("a"))), "b");
}
