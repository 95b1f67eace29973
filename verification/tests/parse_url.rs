use zed_zig::error::Error;
use zed_zig::util::parse_url;

fn invalid() -> Error {
    Error::Configuration {
        message: "Invalid URL".to_string(),
        fix: "Please provide a valid URL starting with http:// or https://".to_string(),
    }
}

#[test]
fn parse_url_accepts_http_and_https() {
    assert_eq!(parse_url("https://example.com/x"), Ok(()));
    assert_eq!(parse_url("http://example.com"), Ok(()));
    assert_eq!(parse_url("http://"), Ok(()));
    assert_eq!(parse_url("https://releases.zigtools.org/v1/zls/select-version"), Ok(()));
}

#[test]
fn parse_url_rejects_other_schemes_and_plain_text() {
    assert_eq!(parse_url("ftp://x"), Err(invalid()));
    assert_eq!(parse_url("not a url"), Err(invalid()));
    assert_eq!(parse_url(""), Err(invalid()));
    assert_eq!(parse_url("HTTP://example.com"), Err(invalid()));
    assert_eq!(parse_url("http:/example.com"), Err(invalid()));
    assert_eq!(parse_url("xhttp://example.com"), Err(invalid()));
    assert_eq!(parse_url("://example.com"), Err(invalid()));
    assert_eq!(parse_url("httpss://example.com"), Err(invalid()));
}

#[test]
fn parse_url_rejects_a_second_separator() {
    assert_eq!(parse_url("http://a://b"), Err(invalid()));
    assert_eq!(parse_url("https://example.com/redirect/http://other"), Err(invalid()));
    assert_eq!(parse_url("http://://"), Err(invalid()));
}

#[test]
fn parse_url_ignores_query_and_fragment() {
    assert_eq!(parse_url("https://example.com/x?next=http://other"), Ok(()));
    assert_eq!(parse_url("https://example.com/x#http://other"), Ok(()));
    assert_eq!(parse_url("https:?//example.com"), Err(invalid()));
    assert_eq!(parse_url("?https://example.com"), Err(invalid()));
}

#[test]
fn parse_url_trims_whitespace() {
    assert_eq!(parse_url("  https://example.com/x \n"), Ok(()));
    assert_eq!(parse_url("\t\u{a0}\u{3000}http://example.com\u{2028}"), Ok(()));
    assert_eq!(parse_url("   "), Err(invalid()));
    assert_eq!(parse_url("x https://example.com"), Err(invalid()));
    assert_eq!(parse_url("\u{200b}https://example.com"), Err(invalid()));
}
