//! Text and paths, held against the standard library.
use bluetooth_audio_bridge::path::{
    append_bytes, copy_bytes, is_absolute, is_direct_file_path, join, same_bytes, same_path, split,
};
use bluetooth_audio_bridge::text::{
    ascii_upper, chars_of, comes_before_or_equals, decimal_text, lower_char, lower_span, same,
    same_ignoring_case, space, span_is, trim_span, upper_char, Span,
};
use std::path::{Component, Path};

const WORDS: [&str; 12] = [
    "", " ", "on", " On \t", "\u{3000}wide\u{2028}", "\u{a0}x\u{85}", "ß", "Straße", "AZaz[`{@",
    "日本", "\r\n", "a b",
];

#[test]
fn white_space_is_that_of_unicode() {
    for n in 0u32..=0x10ffff {
        if let Some(c) = char::from_u32(n) {
            assert_eq!(space(c), c.is_whitespace(), "{:x}", n);
        }
    }
}

#[test]
fn single_letters_change_case_in_ascii_only() {
    for n in 0u32..=0x10ffff {
        if let Some(c) = char::from_u32(n) {
            assert_eq!(lower_char(c), c.to_ascii_lowercase());
            assert_eq!(upper_char(c), c.to_ascii_uppercase());
        }
    }
}

#[test]
fn words_are_trimmed_and_lowered() {
    for word in WORDS {
        let chars = chars_of(word);
        assert_eq!(chars.iter().collect::<String>(), word);
        let inner = trim_span(&chars, Span { from: 0, to: chars.len() });
        let trimmed: String = chars[inner.from..inner.to].iter().collect();
        assert_eq!(trimmed, word.trim());
        assert!(span_is(&chars, Span { from: inner.from, to: inner.to }, word.trim()));
        assert!(!span_is(&chars, Span { from: inner.from, to: inner.to }, "other"));
        assert_eq!(lower_span(&chars, inner), word.trim().to_ascii_lowercase());
        assert_eq!(ascii_upper(word), word.to_ascii_uppercase());
    }
}

#[test]
fn words_compare_as_strings_do() {
    for a in WORDS {
        for b in WORDS {
            assert_eq!(same(a, b), a == b);
            assert_eq!(same_ignoring_case(a, b), a.eq_ignore_ascii_case(b));
            assert_eq!(comes_before_or_equals(a, b), a <= b);
        }
    }
    assert!(same_ignoring_case("0000110A-x", "0000110a-X"));
    assert!(!same_ignoring_case("É", "é"));
}

#[test]
fn order_of_words_is_total_transitive_and_antisymmetric() {
    for a in WORDS {
        for b in WORDS {
            assert!(comes_before_or_equals(a, b) || comes_before_or_equals(b, a));
            if comes_before_or_equals(a, b) && comes_before_or_equals(b, a) {
                assert_eq!(a, b);
            }
            for c in WORDS {
                if comes_before_or_equals(a, b) && comes_before_or_equals(b, c) {
                    assert!(comes_before_or_equals(a, c));
                }
            }
        }
    }
}

#[test]
fn numbers_are_written_in_decimal() {
    for n in [0u64, 7, 9, 10, 11, 99, 100, 44100, 4294967295, u64::MAX] {
        assert_eq!(decimal_text(n), n.to_string());
    }
    assert_ne!(decimal_text(1), decimal_text(10));
}

const PATHS: [&str; 20] = [
    "", ".", "..", "/", "//", "/a", "/a/", "/a/b", "/a//b", "/a/./b", "/a/../b", "a", "a/b", "./a",
    "./", "a/.", "a/..", "/.", "/./a", ".a",
];

#[test]
fn paths_are_split_into_components() {
    for p in PATHS {
        let expected: Vec<Vec<u8>> = Path::new(p)
            .components()
            .filter_map(|c| match c {
                Component::Normal(name) => Some(name.to_str().unwrap().as_bytes().to_vec()),
                Component::ParentDir => Some(b"..".to_vec()),
                _ => None,
            })
            .collect();
        assert_eq!(split(p.as_bytes()), expected, "{}", p);
        assert_eq!(is_absolute(p.as_bytes()), Path::new(p).is_absolute());
    }
}

#[test]
fn paths_are_equal_when_their_components_are() {
    for a in PATHS {
        for b in PATHS {
            assert_eq!(
                same_path(a.as_bytes(), b.as_bytes()),
                Path::new(a) == Path::new(b),
                "{} {}",
                a,
                b
            );
            assert_eq!(same_path(a.as_bytes(), b.as_bytes()), same_path(b.as_bytes(), a.as_bytes()));
        }
        assert!(same_path(a.as_bytes(), a.as_bytes()));
    }
}

#[test]
fn paths_are_joined_as_std_joins_them() {
    for a in PATHS {
        for b in PATHS {
            let expected = Path::new(a).join(b);
            assert_eq!(
                join(a.as_bytes(), b.as_bytes()),
                expected.to_str().unwrap().as_bytes(),
                "{} {}",
                a,
                b
            );
        }
    }
    assert_eq!(join(b"/base", b"/absolute"), b"/absolute".to_vec());
    assert!(is_absolute(&join(b"/base", b"relative")));
}

#[test]
fn file_paths_name_a_file_and_never_step_up() {
    for p in PATHS {
        let path = Path::new(p);
        let expected = path.file_name().is_some()
            && !path.components().any(|c| matches!(c, Component::ParentDir));
        assert_eq!(is_direct_file_path(p.as_bytes()), expected, "{}", p);
    }
}

#[test]
fn bytes_are_copied_and_compared() {
    assert_eq!(copy_bytes(&[0, 255, 47]), vec![0, 255, 47]);
    let mut out = vec![1u8];
    append_bytes(&mut out, &[2, 3]);
    assert_eq!(out, vec![1, 2, 3]);
    assert!(same_bytes(&[1, 2], &[1, 2]));
    assert!(!same_bytes(&[1, 2], &[1, 3]));
    assert!(!same_bytes(&[1, 2], &[1]));
}
