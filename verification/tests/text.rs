use yt_music_downloader::text::{
    char_is_whitespace, chars_of, contains, joined, last_segment, lines, parse_u64, same_text,
    split, split_pieces, split_whitespace, strip_carriage_return, Separator,
};

const SAMPLES: [&str; 24] = [
    "",
    "a",
    "\n",
    "\r",
    "\r\n",
    "a\n",
    "a\r\n",
    "a\r",
    "a\r\r\n",
    "a\n\nb",
    "\n\na",
    "one\ntwo\r\nthree",
    "one\ntwo\r\nthree\n",
    "tab\tand space \u{a0}and\u{3000}wide",
    "  leading and trailing  ",
    "/Volumes/USB",
    "/Volumes/USB/",
    "a,b,,c,",
    ",",
    ",,",
    "caf\u{e9} \u{1F3B5} music",
    "x\u{2028}y\u{2029}z\u{85}w",
    "\u{1680}\u{2000}\u{200a}\u{202f}\u{205f}",
    "no separators at all",
];

fn owned(items: Vec<&str>) -> Vec<String> {
    items.into_iter().map(|s| s.to_string()).collect()
}

#[test]
fn chars_are_listed_in_order() {
    for s in SAMPLES {
        assert_eq!(chars_of(s), s.chars().collect::<Vec<char>>());
    }
}

#[test]
fn same_text_is_equality() {
    assert!(same_text("usb", "usb"));
    assert!(!same_text("usb", "USB"));
    assert!(!same_text("usb", "usb "));
    assert!(same_text("", ""));
}

#[test]
fn joined_appends() {
    assert_eq!(joined("Failed: ", "reason"), "Failed: reason");
    assert_eq!(joined("", ""), "");
}

#[test]
fn whitespace_is_what_unicode_says() {
    let mut code: u32 = 0;
    while code <= 0x10FFFF {
        if let Some(c) = char::from_u32(code) {
            assert_eq!(char_is_whitespace(c), c.is_whitespace(), "U+{:04X}", code);
        }
        code += 1;
    }
}

#[test]
fn separators_test_characters() {
    assert!(Separator::Char(',').test(','));
    assert!(!Separator::Char(',').test(';'));
    assert!(Separator::Whitespace.test('\t'));
    assert!(!Separator::Whitespace.test('x'));
}

#[test]
fn split_agrees_with_std() {
    for s in SAMPLES {
        for c in [',', '/', '\n', ' ', 'a'] {
            assert_eq!(split(s, c), owned(s.split(c).collect()), "{:?} at {:?}", s, c);
            assert_eq!(split_pieces(s, Separator::Char(c)), split(s, c));
        }
    }
}

#[test]
fn split_keeps_empty_pieces() {
    assert_eq!(split("a,b,,c,", ','), owned(vec!["a", "b", "", "c", ""]));
    assert_eq!(split("", ','), owned(vec![""]));
    assert_eq!(split(",", ','), owned(vec!["", ""]));
    assert_eq!(split("abc", ','), owned(vec!["abc"]));
}

#[test]
fn pieces_at_whitespace_keep_empty_pieces() {
    assert_eq!(split_pieces("a  b", Separator::Whitespace), owned(vec!["a", "", "b"]));
    assert_eq!(split_pieces(" ", Separator::Whitespace), owned(vec!["", ""]));
}

#[test]
fn words_agree_with_std() {
    for s in SAMPLES {
        assert_eq!(split_whitespace(s), owned(s.split_whitespace().collect()), "{:?}", s);
    }
}

#[test]
fn words_leave_out_white_space() {
    assert_eq!(split_whitespace("  a \t b\n"), owned(vec!["a", "b"]));
    assert_eq!(split_whitespace(""), Vec::<String>::new());
    assert_eq!(split_whitespace(" \u{3000} "), Vec::<String>::new());
}

#[test]
fn lines_agree_with_std() {
    for s in SAMPLES {
        assert_eq!(lines(s), owned(s.lines().collect()), "{:?}", s);
    }
}

#[test]
fn lines_end_at_line_feeds() {
    assert_eq!(lines("a\nb"), owned(vec!["a", "b"]));
    assert_eq!(lines("a\nb\n"), owned(vec!["a", "b"]));
    assert_eq!(lines("a\r\nb\r\n"), owned(vec!["a", "b"]));
    assert_eq!(lines("a\n\nb"), owned(vec!["a", "", "b"]));
    assert_eq!(lines(""), Vec::<String>::new());
    assert_eq!(lines("\n"), owned(vec![""]));
    assert_eq!(lines("a\r\r\n"), owned(vec!["a\r"]));
    assert_eq!(lines("a\r"), owned(vec!["a\r"]));
}

#[test]
fn carriage_return_is_stripped_once() {
    assert_eq!(strip_carriage_return("a\r"), "a");
    assert_eq!(strip_carriage_return("a\r\r"), "a\r");
    assert_eq!(strip_carriage_return("\r"), "");
    assert_eq!(strip_carriage_return("a"), "a");
    assert_eq!(strip_carriage_return(""), "");
    assert_eq!(strip_carriage_return("\ra"), "\ra");
}

#[test]
fn contains_agrees_with_std() {
    let patterns = ["", "a", "/Volumes/", "\n", "and", "  ", "b,,c", "music", "\u{e9} ", "zzz"];
    for s in SAMPLES {
        for p in patterns {
            assert_eq!(contains(s, p), s.contains(p), "{:?} in {:?}", p, s);
        }
    }
}

#[test]
fn contains_finds_patterns_at_the_ends() {
    assert!(contains("Removable Disk", "Removable Disk"));
    assert!(contains("x Removable Disk", "Removable Disk"));
    assert!(contains("Removable Disk x", "Removable Disk"));
    assert!(!contains("Removable Dis", "Removable Disk"));
    assert!(!contains("", "a"));
    assert!(contains("", ""));
    assert!(contains("aab", "ab"));
    assert!(!contains("aba", "bb"));
}

#[test]
fn last_segment_agrees_with_std() {
    for s in SAMPLES {
        assert_eq!(last_segment(s, '/'), s.split('/').last().unwrap(), "{:?}", s);
    }
}

#[test]
fn last_segment_follows_last_separator() {
    assert_eq!(last_segment("/Volumes/USB", '/'), "USB");
    assert_eq!(last_segment("/Volumes/USB/", '/'), "");
    assert_eq!(last_segment("USB", '/'), "USB");
    assert_eq!(last_segment("", '/'), "");
}

#[test]
fn numbers_agree_with_std() {
    let texts = [
        "", "+", "-", "0", "+0", "-0", "7", "+7", "-7", "007", "12345", "18446744073709551615",
        "18446744073709551616", "+18446744073709551615", "99999999999999999999999", "1 ", " 1",
        "1_000", "++1", "+-1", "1+", "12a", "a12", "1.5", "\u{661}", "\u{ff11}", "E:", "0x10",
        "00000000000000000000000000000001", "18446744073709551609", "18446744073709551610",
        "1844674407370955161", "184467440737095516150",
    ];
    for t in texts {
        assert_eq!(parse_u64(t), t.parse::<u64>().ok(), "{:?}", t);
    }
}

#[test]
fn numbers_are_read_in_base_ten() {
    assert_eq!(parse_u64("0"), Some(0));
    assert_eq!(parse_u64("67890"), Some(67890));
    assert_eq!(parse_u64("+42"), Some(42));
    assert_eq!(parse_u64("18446744073709551615"), Some(u64::MAX));
    assert_eq!(parse_u64("18446744073709551616"), None);
    assert_eq!(parse_u64(""), None);
    assert_eq!(parse_u64("+"), None);
    assert_eq!(parse_u64("12 "), None);
}
