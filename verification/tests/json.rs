use zed_zig::error::Error;
use zed_zig::json::Json;
use zed_zig::util::{fetch_json, JsonExt};

#[test]
fn parse_reads_a_nested_document() {
    let doc = Json::parse(br#"{"version": "1.2.3", "n": 7, "ok": true, "list": [null, "x"], "inner": {"tarball": "https://x/y.tar.gz"}}"#).unwrap();
    assert_eq!(doc.get("version"), Some(&Json::Text("1.2.3".to_string())));
    assert_eq!(doc.get("n"), Some(&Json::Number("7".to_string())));
    assert_eq!(doc.get("ok"), Some(&Json::Bool(true)));
    assert_eq!(
        doc.get("list"),
        Some(&Json::Array(vec![Json::Null, Json::Text("x".to_string())]))
    );
    assert_eq!(
        doc.get("inner").and_then(|inner| inner.get("tarball")).and_then(|t| t.as_str()),
        Some("https://x/y.tar.gz")
    );
    assert_eq!(doc.get("missing"), None);
}

#[test]
fn parse_rejects_malformed_text() {
    let error = Json::parse(b"{\"version\": ").unwrap_err();
    assert!(error.starts_with("EOF while parsing"));
    assert!(Json::parse(b"").is_err());
    assert!(Json::parse(b"{} trailing").is_err());
}

#[test]
fn get_finds_members_of_objects_only() {
    let object = Json::Object(vec![
        ("a".to_string(), Json::Text("first".to_string())),
        ("b".to_string(), Json::Bool(false)),
        ("a".to_string(), Json::Text("second".to_string())),
    ]);
    assert_eq!(object.get("a"), Some(&Json::Text("first".to_string())));
    assert_eq!(object.get("b").and_then(|b| b.as_bool()), Some(false));
    assert_eq!(object.get("c"), None);
    assert_eq!(Json::Text("a".to_string()).get("a"), None);
    assert_eq!(Json::Array(vec![]).get("0"), None);
    assert_eq!(Json::Null.as_str(), None);
    assert!(object.as_object().is_some());
    assert!(Json::Null.as_object().is_none());
}

#[test]
fn get_str_reads_string_members() {
    let doc = Json::parse(br#"{"version": "1.2.3", "count": 3, "inner": {"a": "b"}}"#).unwrap();
    assert_eq!(doc.get_str("version"), Ok("1.2.3"));
    assert_eq!(doc.get_str("count"), Err(Error::Missing { field: "count".to_string() }));
    assert_eq!(doc.get_str("absent"), Err(Error::Missing { field: "absent".to_string() }));
    assert_eq!(
        Json::Null.get_str("version"),
        Err(Error::Missing { field: "version".to_string() })
    );
}

#[test]
fn get_obj_reads_object_members() {
    let doc = Json::parse(br#"{"version": "1.2.3", "inner": {"a": "b"}}"#).unwrap();
    assert_eq!(
        doc.get_obj("inner"),
        Ok(&Json::Object(vec![("a".to_string(), Json::Text("b".to_string()))]))
    );
    assert_eq!(doc.get_obj("version"), Err(Error::Missing { field: "version".to_string() }));
    assert_eq!(doc.get_obj("absent"), Err(Error::Missing { field: "absent".to_string() }));
}

#[test]
fn get_nested_str_walks_a_dotted_path() {
    let doc = Json::parse(
        br#"{"master": {"version": "0.14.0-dev", "date": 7, "src": {"tarball": "t"}}, "": {"": "e"}, "top": "x"}"#,
    )
    .unwrap();
    let missing = |field: &str| Err(Error::Missing { field: field.to_string() });
    assert_eq!(doc.get_nested_str("master.version"), Ok("0.14.0-dev"));
    assert_eq!(doc.get_nested_str("master.src.tarball"), Ok("t"));
    assert_eq!(doc.get_nested_str("top"), Ok("x"));
    assert_eq!(doc.get_nested_str("."), Ok("e"));
    assert_eq!(doc.get_nested_str("stable.version"), missing("stable"));
    assert_eq!(doc.get_nested_str("master.release"), missing("master.release"));
    assert_eq!(doc.get_nested_str("master.src.size"), missing("master.src.size"));
    assert_eq!(doc.get_nested_str("master.version.major"), missing("master.version.major"));
    assert_eq!(doc.get_nested_str("master.date"), missing("master.date"));
    assert_eq!(doc.get_nested_str("master"), missing("master"));
    assert_eq!(doc.get_nested_str("master."), missing("master."));
    assert_eq!(doc.get_nested_str("top.x.y"), missing("top.x"));
}

#[test]
fn fetch_json_reads_a_response() {
    let url = "https://ziglang.org/download/index.json";
    assert_eq!(
        fetch_json(url, &Ok(br#"{"a": "b"}"#.to_vec())),
        Ok(Json::Object(vec![("a".to_string(), Json::Text("b".to_string()))]))
    );
    assert_eq!(
        fetch_json(url, &Err("connection refused".to_string())),
        Err(Error::FetchFailed { url: url.to_string(), error: "connection refused".to_string() })
    );
    assert_eq!(
        fetch_json(url, &Ok(b"<html>".to_vec())),
        Err(Error::LanguageServer(
            "Failed to parse JSON response: expected value at line 1 column 1".to_string()
        ))
    );
}
