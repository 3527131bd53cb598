use fs_commands::executor::{contains, format_listing};
use fs_commands::text::{chars_of, join, replace_all, same_text};

#[test]
fn replace_all_agrees_with_the_standard_library() {
    let cases = [
        ("hello world", "o", "0"),
        ("aaa", "aa", "b"),
        ("aaaa", "aa", "a"),
        ("abc", "", "-"),
        ("", "", "-"),
        ("", "x", "y"),
        ("abc", "abc", ""),
        ("abc", "abcd", "x"),
        ("a.b.c", ".", ".."),
        ("na\u{ef}ve caf\u{e9}", "\u{e9}", "e"),
        ("\u{1f4c4}\u{1f4c4}", "\u{1f4c4}", "doc"),
        ("xxabxxabxx", "ab", "ba"),
        ("aab", "ab", "b"),
    ];
    for (text, old, new) in cases {
        assert_eq!(replace_all(text, old, new), text.replace(old, new));
    }
}

#[test]
fn replace_all_exact_values() {
    assert_eq!(replace_all("one two one", "one", "1"), "1 two 1");
    assert_eq!(replace_all("abc", "", "-"), "-a-b-c-");
    assert_eq!(replace_all("aaa", "aa", "b"), "ba");
    assert_eq!(replace_all("unchanged", "zzz", "y"), "unchanged");
}

#[test]
fn contains_agrees_with_the_standard_library() {
    let cases = [("hello", "ell"), ("hello", "elo"), ("hello", ""), ("", ""), ("", "a"), ("ab", "abc")];
    for (text, pattern) in cases {
        assert_eq!(contains(text, pattern), text.contains(pattern));
    }
}

#[test]
fn chars_are_taken_one_by_one() {
    assert_eq!(chars_of("d\u{e9}j\u{e0}"), vec!['d', '\u{e9}', 'j', '\u{e0}']);
    assert_eq!(chars_of(""), Vec::<char>::new());
}

#[test]
fn same_text_compares_characters() {
    assert!(same_text("ok", "ok"));
    assert!(!same_text("ok", "OK"));
    assert!(!same_text("ok", "ok "));
}

#[test]
fn join_puts_the_separator_between_neighbours() {
    let none: Vec<String> = vec![];
    assert_eq!(join(&none, ", "), "");
    assert_eq!(join(&vec!["read".to_string()], ", "), "read");
    assert_eq!(join(&vec!["read".to_string(), "write".to_string()], ", "), "read, write");
    assert_eq!(join(&vec!["a".to_string(), "".to_string(), "c".to_string()], "-"), "a--c");
}

#[test]
fn listing_puts_each_entry_behind_a_blank() {
    let none: Vec<String> = vec![];
    assert_eq!(format_listing(&none), "");
    assert_eq!(format_listing(&vec!["a.txt".to_string()]), " a.txt");
    assert_eq!(format_listing(&vec!["a.txt".to_string(), "src".to_string()]), " a.txt\n src");
}
