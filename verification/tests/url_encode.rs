use zed_zig::util::url_encode;

#[test]
fn url_encode_version_with_build_metadata() {
    assert_eq!(url_encode("1.2.3-beta+4"), "1%2E2%2E3%2Dbeta%2B4");
}

#[test]
fn url_encode_keeps_ascii_letters_and_digits() {
    assert_eq!(url_encode("abcXYZ0189"), "abcXYZ0189");
    assert_eq!(url_encode(""), "");
}

#[test]
fn url_encode_percent_encodes_utf8_bytes() {
    assert_eq!(url_encode(" "), "%20");
    assert_eq!(url_encode("_~/"), "%5F%7E%2F");
    assert_eq!(url_encode("é"), "%C3%A9");
    assert_eq!(url_encode("€"), "%E2%82%AC");
    assert_eq!(url_encode("😀"), "%F0%9F%98%80");
    assert_eq!(url_encode("%"), "%25");
}

#[test]
fn url_encode_output_alphabet() {
    let encoded = url_encode("0.14.0-dev.2+a1b2c3 ü/?#&=");
    assert!(encoded.chars().all(|c| c.is_ascii_alphanumeric() || c == '%'));
}
