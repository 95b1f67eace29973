use zed_zig::text::{
    chars_contain, chars_eq, chars_occur_at, chars_of, clone_strings, concat2, concat3, owned,
    string_of, sub_chars, text_contains, text_eq,
};

#[test]
fn chars_and_strings_round_trip() {
    let chars = chars_of("zig é😀");
    assert_eq!(chars, vec!['z', 'i', 'g', ' ', 'é', '😀']);
    assert_eq!(string_of(&chars, 0, 6), "zig é😀");
    assert_eq!(string_of(&chars, 4, 5), "é");
    assert_eq!(string_of(&chars, 3, 3), "");
    assert_eq!(sub_chars(&chars, 1, 3), vec!['i', 'g']);
    assert_eq!(chars_of(""), Vec::<char>::new());
}

#[test]
fn equality_of_texts() {
    assert!(text_eq("zls", "zls"));
    assert!(!text_eq("zls", "zlS"));
    assert!(!text_eq("zls", "zls "));
    assert!(text_eq("", ""));
    assert!(chars_eq(&chars_of("a"), &chars_of("a")));
    assert!(!chars_eq(&chars_of("a"), &chars_of("b")));
}

#[test]
fn substring_search() {
    assert!(text_contains("tool-aarch64-macos.tar.gz", "aarch64-macos"));
    assert!(!text_contains("tool-aarch64-macos.tar.gz", "aarch64-windows"));
    assert!(text_contains("abc", ""));
    assert!(text_contains("", ""));
    assert!(!text_contains("", "a"));
    assert!(text_contains("abc", "abc"));
    assert!(text_contains("abc", "c"));
    assert!(!text_contains("abc", "abcd"));
    assert!(text_contains("aab", "ab"));
    let haystack = chars_of("x86_64-linux-gnu");
    assert!(chars_occur_at(&haystack, &chars_of("linux"), 7));
    assert!(!chars_occur_at(&haystack, &chars_of("linux"), 6));
    assert!(!chars_occur_at(&haystack, &chars_of("gnu"), 14));
    assert!(chars_occur_at(&haystack, &chars_of(""), 16));
    assert!(!chars_occur_at(&haystack, &chars_of(""), 17));
    assert!(chars_contain(&haystack, &chars_of("gnu")));
}

#[test]
fn concatenation_and_copies() {
    assert_eq!(owned("zls"), "zls");
    assert_eq!(concat2("zls-", "0.13.0"), "zls-0.13.0");
    assert_eq!(concat3("zls", "-", "0.13.0"), "zls-0.13.0");
    let list = vec!["--enable".to_string(), "x".to_string()];
    assert_eq!(clone_strings(&list), list);
    assert_eq!(clone_strings(&Vec::new()), Vec::<String>::new());
}
