use chaser_resolverr::text::{
    chars_of, concat3, contains, decimal_string, eq_ignore_ascii_case, is_white_space,
    opt_eq, parse_signed, parse_unsigned, replace, split_whitespace, starts_with, str_eq,
    string_of,
};
use chaser_resolverr::text;

#[test]
fn comparison_goes_by_content() {
    assert!(str_eq("", ""));
    assert!(str_eq("grün", "grün"));
    assert!(!str_eq("a", "ab"));
    assert!(!str_eq("é", "e\u{301}"));
    assert!(opt_eq(&None, &None));
    assert!(!opt_eq(&None, &Some(String::new())));
    assert!(opt_eq(&Some("x".to_string()), &Some("x".to_string())));
}

#[test]
fn pieces_are_put_together() {
    assert_eq!(text::concat("a", "b"), "ab");
    assert_eq!(concat3("ä", "", "ö"), "äö");
    let chars = chars_of("añb");
    assert_eq!(chars, vec!['a', 'ñ', 'b']);
    assert_eq!(string_of(&chars, 1, 3), "ñb");
}

#[test]
fn search_agrees_with_std() {
    for hay in ["", "a", "aab", "Just a moment...", "ünïcödé"] {
        for needle in ["", "a", "ab", "moment", "ö", "zz"] {
            assert_eq!(contains(hay, needle), hay.contains(needle));
            assert_eq!(starts_with(hay, needle), hay.starts_with(needle));
        }
    }
}

#[test]
fn replacement_agrees_with_std() {
    for s in ["", "aaa", "x<site-key>y<site-key>", "<site<site-key>"] {
        for from in ["a", "aa", "<site-key>", "zz"] {
            for to in ["", "b", "<site-key>"] {
                assert_eq!(replace(s, from, to), s.replace(from, to));
            }
        }
    }
}

#[test]
fn ascii_case_is_ignored_and_no_other() {
    for (a, b) in [("User-Agent", "user-agent"), ("É", "é"), ("a", "b"), ("@", "`"), ("[", "{")] {
        assert_eq!(eq_ignore_ascii_case(a, b), a.eq_ignore_ascii_case(b));
    }
}

#[test]
fn white_space_agrees_with_std_on_every_character() {
    for u in 0..=0x10ffffu32 {
        if let Some(c) = char::from_u32(u) {
            assert_eq!(is_white_space(c), c.is_whitespace(), "{}", u);
        }
    }
}

#[test]
fn words_agree_with_std() {
    for s in ["", "  ", "a", " a  b ", "--x=1\n--y\u{a0}z\u{3000}"] {
        let words: Vec<String> = s.split_whitespace().map(String::from).collect();
        assert_eq!(split_whitespace(s), words);
    }
}

#[test]
fn declarations_allow_white_space_around_the_colon() {
    let hides = |style| text::sets_property(style, "display", "none");
    for style in ["display:none", "a:b;display :\tnone", "display\n:\u{a0} none !important"] {
        assert!(hides(style), "{}", style);
    }
    for style in ["", "display", "display:", "dis play:none", "display:no ne", "display;none",
        "display::none", "none:display"]
    {
        assert!(!hides(style), "{}", style);
    }
    assert!(hides("display display:block; display:none"));
}

#[test]
fn decimal_notation_agrees_with_std() {
    for n in [0, 9, 10, 199, 65535, u64::MAX as u128, u128::MAX] {
        assert_eq!(decimal_string(n), n.to_string());
    }
}

#[test]
fn numbers_are_read_as_std_reads_them() {
    for s in [
        "", "+", "-", "0", "+0", "-0", "007", "65535", "65536", "18446744073709551615",
        "18446744073709551616", "99999999999999999999999", "1 ", " 1", "1_0", "٣", "++1", "-1",
    ] {
        assert_eq!(parse_unsigned(s, u64::MAX), s.parse::<u64>().ok(), "{}", s);
        assert_eq!(parse_unsigned(s, 65535), s.parse::<u16>().ok().map(u64::from), "{}", s);
    }
    for s in [
        "", "-", "+", "0", "-0", "+7", "-7", "9223372036854775807", "9223372036854775808",
        "-9223372036854775808", "-9223372036854775809", "--1", "+-1", "1e3",
    ] {
        assert_eq!(parse_signed(s), s.parse::<i64>().ok(), "{}", s);
    }
}
