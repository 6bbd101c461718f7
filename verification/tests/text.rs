use ytdl_engine::text::{
    chars_of, check_space, has_text, number_chars, parse_number, prefixed, split_chars,
    split_lines, split_words, string_of, trim_chars,
};

fn cs(s: &str) -> Vec<char> {
    s.chars().collect()
}

fn strings(v: Vec<Vec<char>>) -> Vec<String> {
    v.iter().map(|w| w.iter().collect()).collect()
}

#[test]
fn chars_and_back() {
    assert_eq!(chars_of("a\u{e9}\u{1f600}"), vec!['a', '\u{e9}', '\u{1f600}']);
    assert_eq!(string_of(&cs("a\u{e9}\u{1f600}")), "a\u{e9}\u{1f600}");
    assert_eq!(chars_of(""), Vec::<char>::new());
    assert_eq!(prefixed("ab", "cd"), "abcd");
}

#[test]
fn white_space_is_as_the_standard_library_says() {
    for n in 0..=0x10ffffu32 {
        if let Some(c) = char::from_u32(n) {
            assert_eq!(check_space(c), c.is_whitespace(), "U+{:04X}", n);
        }
    }
}

#[test]
fn trimming_is_as_the_standard_library_says() {
    for s in ["", " ", "a", "  a b  ", "\t\n x\u{a0}\u{3000}", "x \u{200b} ", "\u{2003}y"] {
        assert_eq!(string_of(&trim_chars(&cs(s))), s.trim(), "{:?}", s);
    }
}

#[test]
fn words_are_as_the_standard_library_says() {
    for s in ["", " ", "a", "  a b  ", "a\tb\nc", " --x  --y=1 z ", "\u{3000}a\u{a0}b"] {
        let want: Vec<String> = s.split_whitespace().map(String::from).collect();
        assert_eq!(strings(split_words(&cs(s))), want, "{:?}", s);
    }
}

#[test]
fn lines_are_as_the_standard_library_says() {
    for s in ["", "\n", "a", "a\n", "a\nb", "a\r\nb\r\n", "a\n\nb\n\n", "a\r", "\r\n", "a\r\r\n", "\ra\n"] {
        let want: Vec<String> = s.lines().map(String::from).collect();
        assert_eq!(strings(split_lines(&cs(s))), want, "{:?}", s);
    }
}

#[test]
fn splitting_is_as_the_standard_library_says() {
    for s in ["", ":", "a", "a:b", "a::b", ":a:", "a:b:c:d", ":::"] {
        let want: Vec<String> = s.split(':').map(String::from).collect();
        assert_eq!(strings(split_chars(&cs(s), ':')), want, "{:?}", s);
    }
}

#[test]
fn substring_search_is_as_the_standard_library_says() {
    for (s, p) in [("", ""), ("a", ""), ("", "a"), ("abc", "bc"), ("abc", "cb"), ("a://b", "://"), ("a:/b", "://"), ("://", "://")] {
        assert_eq!(has_text(&cs(s), &cs(p)), s.contains(p), "{:?} {:?}", s, p);
    }
}

#[test]
fn numbers_are_read_and_written() {
    assert_eq!(parse_number(&cs("0")), Some(0));
    assert_eq!(parse_number(&cs("0042")), Some(42));
    assert_eq!(parse_number(&cs("")), None);
    assert_eq!(parse_number(&cs("4 2")), None);
    assert_eq!(parse_number(&cs(&usize::MAX.to_string())), Some(usize::MAX));
    assert_eq!(parse_number(&cs(&format!("{}0", usize::MAX))), None);
    for n in [0u64, 7, 10, 99, 100, 12345, u64::MAX] {
        assert_eq!(string_of(&number_chars(n)), n.to_string());
    }
}
