use std::path::{Path, MAIN_SEPARATOR};

use zed_zig::extension::join_path;
use zed_zig::settings::Provider;
use zed_zig::text::{chars_of, text_contains, text_eq};
use zed_zig::util::{is_alphanumeric, is_whitespace_char, parse_url, url_encode, utf8_bytes};

fn every_char() -> impl Iterator<Item = char> {
    (0u32..=0x10FFFF).filter_map(char::from_u32)
}

#[test]
fn whitespace_is_that_of_the_standard_library() {
    for c in every_char() {
        assert_eq!(is_whitespace_char(c), c.is_whitespace(), "{:?}", c);
    }
}

#[test]
fn alphanumerics_are_those_of_the_standard_library() {
    for c in every_char() {
        assert_eq!(is_alphanumeric(c), c.is_ascii_alphanumeric(), "{:?}", c);
    }
}

#[test]
fn utf8_bytes_are_those_of_the_standard_library() {
    for c in every_char() {
        let mut buffer = [0u8; 4];
        assert_eq!(utf8_bytes(c), c.encode_utf8(&mut buffer).as_bytes(), "{:?}", c);
    }
}

#[test]
fn url_encode_of_every_character() {
    for c in every_char() {
        let expected: String = if c.is_ascii_alphanumeric() {
            c.to_string()
        } else {
            c.to_string().bytes().map(|byte| format!("%{:02X}", byte)).collect()
        };
        assert_eq!(url_encode(&c.to_string()), expected, "{:?}", c);
    }
    assert_eq!(url_encode("+"), "%2B");
    assert_eq!(url_encode("-"), "%2D");
    assert_eq!(url_encode("."), "%2E");
}

#[test]
fn url_encode_of_a_text_is_that_of_its_characters() {
    let text = "0.14.0-dev.2+abc é😀 ~";
    let expected: String = text.chars().map(|c| url_encode(&c.to_string())).collect();
    assert_eq!(url_encode(text), expected);
}

#[test]
fn text_functions_agree_with_the_standard_library() {
    let texts = ["", "a", "ab", "ba", "aab", "abab", "x86_64-linux-gnu", "linux", "é", "aé😀", "😀"];
    for one in texts {
        assert_eq!(chars_of(one), one.chars().collect::<Vec<char>>());
        for other in texts {
            assert_eq!(text_eq(one, other), one == other, "{:?} {:?}", one, other);
            assert_eq!(text_contains(one, other), one.contains(other), "{:?} {:?}", one, other);
        }
    }
}

#[test]
fn parse_url_agrees_with_trim_and_split() {
    let urls = [
        "https://example.com/x",
        "ftp://x",
        "not a url",
        " http://a ",
        "http://a://b",
        "http://a?b://c",
        "http://a#b://c",
        "http://",
        "https://",
        "https:/",
        "http",
        "://",
        "",
        "\u{2003}https://x\u{85}",
        "https ://x",
        "http://a:/ /b",
        "?http://a",
        "http://a:://",
    ];
    for url in urls {
        let head = url.trim().split(|c| c == '#' || c == '?').next().unwrap_or("");
        let parts: Vec<&str> = head.split("://").collect();
        let expected = parts.len() == 2 && ["http", "https"].contains(&parts[0]);
        assert_eq!(parse_url(url).is_ok(), expected, "{:?}", url);
    }
}

#[test]
fn join_path_agrees_with_paths_separated_by_slashes() {
    if MAIN_SEPARATOR != '/' {
        return;
    }
    let directories = ["", "zls-0.13.0", "zls-0.13.0/", "a/b", "/", "/opt", "é"];
    let files = ["", "zls", "zls.exe", "/usr/bin/zls", "bin/zls", "/", "zigscient-x86_64-linux-gnu"];
    for directory in directories {
        for file in files {
            assert_eq!(
                Some(join_path(directory, file).as_str()),
                Path::new(directory).join(file).to_str(),
                "{:?} {:?}",
                directory,
                file
            );
        }
    }
}

#[test]
fn provider_names_ignore_ascii_case_only() {
    for name in ["zls", "zls-stable", "zls_stable", "zigscient", "custom"] {
        let expected = Provider::from_name(name);
        assert!(expected.is_some());
        assert_eq!(Provider::from_name(&name.to_ascii_uppercase()), expected);
    }
    assert_eq!(Provider::from_name("ｚｌｓ"), None);
    assert_eq!(Provider::from_name("Zls\u{0130}"), None);
}
