use bsuir_rt_utils::text::{chars_of, find, occurs, split_last, strip_all};

fn chars(s: &str) -> Vec<char> {
    s.chars().collect()
}

#[test]
fn chars_of_lists_every_character() {
    assert_eq!(chars_of(""), Vec::<char>::new());
    assert_eq!(chars_of("a-б"), vec!['a', '-', 'б']);
}

#[test]
fn occurs_checks_one_offset() {
    let s = chars("manifest");
    assert!(occurs(&s, &chars("man"), 0));
    assert!(occurs(&s, &chars("fest"), 4));
    assert!(!occurs(&s, &chars("fest"), 3));
    assert!(!occurs(&s, &chars("fest"), 5));
    assert!(!occurs(&s, &chars("fest"), 100));
    assert!(occurs(&s, &chars(""), 8));
    assert!(!occurs(&s, &chars(""), 9));
    assert!(!occurs(&chars("ab"), &chars("abc"), 0));
}

#[test]
fn find_gives_the_leftmost_occurrence() {
    let s = chars("a/b/c");
    assert_eq!(find(&s, &chars("/"), 0), Some(1));
    assert_eq!(find(&s, &chars("/"), 1), Some(1));
    assert_eq!(find(&s, &chars("/"), 2), Some(3));
    assert_eq!(find(&s, &chars("/"), 4), None);
    assert_eq!(find(&s, &chars("/"), 9), None);
    assert_eq!(find(&s, &chars("x"), 0), None);
    assert_eq!(find(&s, &chars(""), 5), Some(5));
    assert_eq!(find(&s, &chars("a/b/c/d"), 0), None);
}

#[test]
fn strip_all_deletes_every_occurrence() {
    assert_eq!(strip_all("a/src/b/src/c", "/src/"), "abc");
    assert_eq!(strip_all("/src/", "/src/"), "");
    assert_eq!(strip_all("abc", "/src/"), "abc");
    assert_eq!(strip_all("", "/src/"), "");
    assert_eq!(strip_all("abc", ""), "abc");
}

#[test]
fn strip_all_does_not_look_back() {
    // What deleting brings together is not deleted again.
    assert_eq!(strip_all("aabb", "ab"), "ab");
    // Occurrences are taken from the left and do not overlap.
    assert_eq!(strip_all("aaa", "aa"), "a");
    assert_eq!(strip_all("/src/src/x", "/src/"), "src/x");
}

#[test]
fn strip_all_agrees_with_replace() {
    let cases = [
        ("p/src/manifest.tex", "/src/manifest.tex"),
        ("p/src/manifest.tex", "/manifest.tex"),
        ("/src/a/src//src/", "/src/"),
        ("ааа-ббб-ааа", "а"),
        ("aaaa", "aa"),
        ("abababa", "aba"),
        ("", "x"),
        ("x", "x"),
    ];
    for (s, pat) in cases {
        assert_eq!(strip_all(s, pat), s.replace(pat, ""), "{s:?} without {pat:?}");
    }
}

#[test]
fn split_last_keeps_the_tail() {
    assert_eq!(split_last("a/b/c", "/"), "c");
    assert_eq!(split_last("a/b/", "/"), "");
    assert_eq!(split_last("abc", "/"), "abc");
    assert_eq!(split_last("", "/"), "");
    assert_eq!(split_last("abc", ""), "");
    assert_eq!(split_last("", ""), "");
}

#[test]
fn split_last_splits_from_the_left() {
    // The second `/src/` shares its first character with the first.
    assert_eq!(split_last("/src/src/x", "/src/"), "src/x");
    assert_eq!(split_last("aaa", "aa"), "a");
}

#[test]
fn split_last_agrees_with_split() {
    let cases = [
        ("/home/u/bsuir-rt-backend", "/"),
        ("/home/u/p/src/manifest.tex", "p"),
        ("pages/src/intro", "/src/"),
        ("/src/src/x", "/src/"),
        ("ааа-ббб-ааа", "-"),
        ("abababa", "aba"),
        ("x", "x"),
        ("", "x"),
        ("abc", ""),
    ];
    for (s, pat) in cases {
        assert_eq!(split_last(s, pat), s.split(pat).last().unwrap(), "{s:?} split at {pat:?}");
    }
}
