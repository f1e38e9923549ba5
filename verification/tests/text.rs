//! The text operations, against those of the standard library.

use cpp_class::text::{decimal_text, join, name_arguments, render_include_lines, replace, same_text};

#[test]
fn replace_agrees_with_the_standard_library() {
    let texts = ["", "a", "aa", "aaa", "aaaa", "abab", "struct Foo", "strstructuct", "\u{e9}a\u{4e2d}a"];
    let patterns = ["", "a", "aa", "ab", "struct", "\u{4e2d}", "longer than any of the texts"];
    for text in texts {
        for pattern in patterns {
            for by in ["", "x", "aa", "\u{e9}"] {
                assert_eq!(
                    replace(text, pattern, by),
                    text.replace(pattern, by),
                    "{:?} {:?} {:?}",
                    text,
                    pattern,
                    by
                );
            }
        }
    }
}

#[test]
fn replace_takes_every_occurrence() {
    assert_eq!(replace("struct Foo", "struct", ""), " Foo");
    assert_eq!(replace("{from_var}.x + {from_var}.y", "{from_var}", "ret"), "ret.x + ret.y");
    assert_eq!(replace("aaa", "aa", "b"), "ba");
    assert_eq!(replace("ab", "", "-"), "-a-b-");
}

#[test]
fn replace_without_occurrence_changes_nothing() {
    assert_eq!(replace("int32_t", "struct", "class"), "int32_t");
}

#[test]
fn decimal_writes_every_digit() {
    for n in [0, 1, 9, 10, 42, 99, 100, 1234567890, usize::MAX] {
        assert_eq!(decimal_text(n), n.to_string());
        assert_eq!(decimal_text(n).parse::<usize>().unwrap(), n);
    }
}

#[test]
fn argument_names_are_numbered() {
    assert!(name_arguments(0).is_empty());
    let names = name_arguments(12);
    assert_eq!(names[0], "a_0");
    assert_eq!(names[11], "a_11");
    for i in 0..names.len() {
        for j in 0..i {
            assert_ne!(names[i], names[j]);
        }
    }
}

#[test]
fn join_separates_neighbours() {
    let strings = |parts: &[&str]| parts.iter().map(|s| s.to_string()).collect::<Vec<_>>();
    assert_eq!(join(&strings(&[]), ","), "");
    assert_eq!(join(&strings(&["'a"]), ","), "'a");
    assert_eq!(join(&strings(&["'a", "'b", "'c"]), ","), "'a,'b,'c");
}

#[test]
fn include_lines_end_with_a_newline() {
    assert_eq!(render_include_lines(&vec![]), "");
    assert_eq!(
        render_include_lines(&vec!["<vector>".to_string(), "\"foo.hpp\"".to_string()]),
        "#include <vector>\n#include \"foo.hpp\"\n"
    );
}

#[test]
fn same_text_compares_characters() {
    assert!(same_text("void", "void"));
    assert!(!same_text("void", "void "));
    assert!(same_text("", ""));
}
