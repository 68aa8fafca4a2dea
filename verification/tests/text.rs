use plasma_drop::text::{
    chars_of, contains_white, decimal_text, file_name, is_white, lower, parse_i32, same_text,
    split, strip_prefix, strip_suffix, text_of, to_lower, trim,
};
use std::path::Path;

fn samples() -> Vec<String> {
    let parts = ["", "/", ".", "..", "a", "B c", "usr", "\u{e9}", "..."];
    let mut all = Vec::new();
    for a in parts {
        for b in parts {
            for c in parts {
                all.push(format!("{a}{b}{c}"));
                all.push(format!("{a}/{b}/{c}"));
            }
        }
    }
    all
}

#[test]
fn white_space_is_that_of_unicode() {
    for c in '\0'..=char::MAX {
        assert_eq!(is_white(c), c.is_whitespace(), "{c:?}");
    }
}

#[test]
fn lower_case_is_that_of_ascii() {
    for c in '\0'..=char::MAX {
        assert_eq!(lower(c), c.to_ascii_lowercase(), "{c:?}");
    }
    assert_eq!(to_lower("AbZ-\u{c9}9"), "abz-\u{c9}9");
}

#[test]
fn trimming_agrees_with_the_standard_library() {
    for s in ["", " ", "a", " a ", "\u{3000}a b\t\n", "\u{200b}a ", "\u{85}\u{a0}x\u{2028}"] {
        assert_eq!(trim(s), s.trim());
    }
}

#[test]
fn numbers_are_read_as_the_standard_library_reads_them() {
    for s in [
        "", "+", "-", "0", "-0", "+0", "007", "12", "-12", "+12", "1 2", " 1", "1_000", "0x1",
        "2147483647", "2147483648", "-2147483648", "-2147483649", "99999999999999999999999",
        "-99999999999999999999999", "00000000000000000000000001", "\u{661}", "--1", "+-1", "1-",
        "99999999999x", "x99999999999", "-99999999999x", "2147483648x", "2147483647x",
        "-2147483648x", "214748364x8",
    ] {
        match (parse_i32(&chars_of(s)), s.parse::<i32>()) {
            (Ok(n), Ok(wanted)) => assert_eq!(n, wanted, "{s}"),
            (Err(e), Err(wanted)) => assert_eq!(e.message(), wanted.to_string(), "{s}"),
            (found, wanted) => panic!("{s}: {found:?} {wanted:?}"),
        }
    }
}

#[test]
fn numbers_are_written_as_the_standard_library_writes_them() {
    for n in [0, 1, 9, 10, 99, 100, 12_345, u64::MAX] {
        assert_eq!(decimal_text(n), n.to_string());
    }
}

#[test]
fn file_names_are_found_as_the_standard_library_finds_them() {
    for s in samples() {
        let wanted = Path::new(&s).file_name().and_then(|name| name.to_str());
        assert_eq!(file_name(&s).as_deref(), wanted, "{s}");
    }
}

#[test]
fn texts_are_cut_where_they_should_be() {
    let parts: Vec<String> = split(&chars_of(",a,,b"), ',').iter().map(text_of).collect();
    assert_eq!(parts, ["", "a", "", "b"]);
    assert_eq!(split(&chars_of(""), ',').len(), 1);
    assert_eq!(strip_prefix(&chars_of("Screen 1"), "Screen "), Some(vec!['1']));
    assert_eq!(strip_prefix(&chars_of("Scree"), "Screen "), None);
    assert_eq!(strip_suffix(&chars_of("50%"), "%"), Some(vec!['5', '0']));
    assert_eq!(strip_suffix(&chars_of("50"), "%"), None);
    assert!(contains_white(&chars_of("a\u{2003}b")));
    assert!(!contains_white(&chars_of("a_b")));
    assert!(same_text("abc", "abc"));
    assert!(!same_text("abc", "abd"));
}
