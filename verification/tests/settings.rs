use zed_zig::error::Error;
use zed_zig::json::Json;
use zed_zig::settings::{
    CommandSettings, LspSettings, Provider, SourceType, VersionSource, ZigTooling,
};

fn github(repo: &str) -> VersionSource {
    VersionSource::GitHub { repo_url: repo.to_string(), pre_release: false }
}

fn api(url: &str) -> VersionSource {
    VersionSource::ApiEndpoint { url: url.to_string() }
}

fn bad_repository() -> Error {
    Error::Configuration {
        message: "Invalid GitHub repository format".to_string(),
        fix: "Please provide the repository in the format 'owner/repo' (e.g. 'zigtools/zls')"
            .to_string(),
    }
}

fn bad_url(url: &str) -> Error {
    Error::Configuration {
        message: format!("Invalid URL: {}", url),
        fix: "Please provide a valid URL starting with http:// or https://".to_string(),
    }
}

fn object(members: Vec<(&str, Json)>) -> Json {
    Json::Object(members.into_iter().map(|(key, value)| (key.to_string(), value)).collect())
}

fn text(value: &str) -> Json {
    Json::Text(value.to_string())
}

#[test]
fn github_source_needs_exactly_one_slash() {
    assert_eq!(github("zigtools/zls").validate(), Ok(()));
    assert_eq!(github("zigtools").validate(), Err(bad_repository()));
    assert_eq!(github("a/b/c").validate(), Err(bad_repository()));
    assert_eq!(github("").validate(), Err(bad_repository()));
    assert_eq!(github("https://github.com/zigtools/zls").validate(), Err(bad_repository()));
    assert_eq!(
        VersionSource::GitHub { repo_url: "o/r".to_string(), pre_release: true }.validate(),
        Ok(())
    );
}

#[test]
fn api_source_needs_an_http_url() {
    assert_eq!(api("https://example.com/x").validate(), Ok(()));
    assert_eq!(api("ftp://x").validate(), Err(bad_url("ftp://x")));
    assert_eq!(api("not a url").validate(), Err(bad_url("not a url")));
}

#[test]
fn source_type_and_duplicate() {
    assert_eq!(github("o/r").source_type(), SourceType::Github);
    assert_eq!(api("https://x").source_type(), SourceType::Api);
    assert_eq!(github("o/r").duplicate(), github("o/r"));
    assert_eq!(api("https://x").duplicate(), api("https://x"));
}

#[test]
fn provider_names_are_case_insensitive() {
    assert_eq!(Provider::from_name("zls"), Some(Provider::Zls));
    assert_eq!(Provider::from_name("ZLS"), Some(Provider::Zls));
    assert_eq!(Provider::from_name("zls-stable"), Some(Provider::ZlsStable));
    assert_eq!(Provider::from_name("zls_stable"), Some(Provider::ZlsStable));
    assert_eq!(Provider::from_name("Zls-Stable"), Some(Provider::ZlsStable));
    assert_eq!(Provider::from_name("zigscient"), Some(Provider::Zigscient));
    assert_eq!(Provider::from_name("Zigscient"), Some(Provider::Zigscient));
    assert_eq!(Provider::from_name("custom"), Some(Provider::Custom));
    assert_eq!(Provider::from_name("CUSTOM"), Some(Provider::Custom));
    assert_eq!(Provider::from_name("zlsstable"), None);
    assert_eq!(Provider::from_name(" zls"), None);
    assert_eq!(Provider::from_name(""), None);
    assert_eq!(Provider::from_name("clangd"), None);
    assert_eq!(Provider::default(), Provider::Zls);
}

#[test]
fn provider_from_json_takes_strings_only() {
    assert_eq!(Provider::from_json(&text("custom")), Some(Provider::Custom));
    assert_eq!(Provider::from_json(&text("none")), None);
    assert_eq!(Provider::from_json(&Json::Bool(true)), None);
    assert_eq!(Provider::from_json(&object(vec![("zls", Json::Null)])), None);
}

#[test]
fn version_source_from_json_follows_the_schema() {
    assert_eq!(
        VersionSource::from_json(&object(vec![("type", text("github")), ("url", text("o/r"))])),
        Some(github("o/r"))
    );
    assert_eq!(
        VersionSource::from_json(&object(vec![
            ("url", text("o/r")),
            ("pre_release", Json::Bool(true)),
            ("type", text("github")),
            ("extra", Json::Null),
        ])),
        Some(VersionSource::GitHub { repo_url: "o/r".to_string(), pre_release: true })
    );
    assert_eq!(
        VersionSource::from_json(&object(vec![
            ("type", text("api")),
            ("url", text("https://x/y")),
            ("pre_release", text("ignored")),
        ])),
        Some(api("https://x/y"))
    );
    assert_eq!(
        VersionSource::from_json(&object(vec![
            ("type", text("github")),
            ("url", text("o/r")),
            ("pre_release", text("yes")),
        ])),
        None
    );
    assert_eq!(
        VersionSource::from_json(&object(vec![("type", text("GitHub")), ("url", text("o/r"))])),
        None
    );
    assert_eq!(VersionSource::from_json(&object(vec![("type", text("api"))])), None);
    assert_eq!(VersionSource::from_json(&object(vec![("url", text("o/r"))])), None);
    assert_eq!(
        VersionSource::from_json(&object(vec![("type", text("api")), ("url", Json::Null)])),
        None
    );
    assert_eq!(VersionSource::from_json(&text("github")), None);
}

#[test]
fn tooling_defaults() {
    let tooling = ZigTooling::default();
    assert_eq!(
        tooling,
        ZigTooling { provider: Provider::Zls, path: None, args: None, version_source: None }
    );
    assert_eq!(
        ZigTooling::from_settings(&LspSettings { binary: None, settings: None }),
        tooling
    );
    assert_eq!(tooling.duplicate(), tooling);
}

#[test]
fn tooling_from_settings_layers_over_defaults() {
    let settings = LspSettings {
        binary: Some(CommandSettings {
            path: Some("/opt/zls".to_string()),
            arguments: Some(vec!["--log".to_string()]),
        }),
        settings: Some(object(vec![
            ("provider", text("Custom")),
            ("version_source", object(vec![("type", text("api")), ("url", text("https://x"))])),
        ])),
    };
    let tooling = ZigTooling::from_settings(&settings);
    assert_eq!(
        tooling,
        ZigTooling {
            provider: Provider::Custom,
            path: Some("/opt/zls".to_string()),
            args: Some(vec!["--log".to_string()]),
            version_source: Some(api("https://x")),
        }
    );
    assert_eq!(tooling.duplicate(), tooling);
}

#[test]
fn tooling_from_settings_ignores_malformed_fields() {
    let settings = LspSettings {
        binary: Some(CommandSettings { path: None, arguments: None }),
        settings: Some(object(vec![
            ("provider", Json::Number("3".to_string())),
            ("version_source", object(vec![("type", text("svn")), ("url", text("x"))])),
        ])),
    };
    assert_eq!(ZigTooling::from_settings(&settings), ZigTooling::default());
    let settings = LspSettings { binary: None, settings: Some(text("zls")) };
    assert_eq!(ZigTooling::from_settings(&settings), ZigTooling::default());
}

#[test]
fn tooling_validate_checks_the_custom_provider() {
    let mut tooling = ZigTooling::default();
    assert_eq!(tooling.validate(), Ok(()));
    tooling.version_source = Some(github("not-a-repository"));
    assert_eq!(tooling.validate(), Ok(()));
    tooling.provider = Provider::Custom;
    assert_eq!(tooling.validate(), Err(bad_repository()));
    tooling.version_source = Some(api("ftp://x"));
    assert_eq!(tooling.validate(), Err(bad_url("ftp://x")));
    tooling.version_source = Some(github("zigtools/zls"));
    assert_eq!(tooling.validate(), Ok(()));
    tooling.version_source = None;
    assert_eq!(
        tooling.validate(),
        Err(Error::Configuration {
            message: "Custom provider requires version_source configuration".to_string(),
            fix: "Please add a version_source configuration with either 'github' or 'api' type"
                .to_string(),
        })
    );
}
