use zed_zig::error::Error;
use zed_zig::host::{Found, GithubRelease, GithubReleaseAsset, GithubReleaseOptions, Lookup};
use zed_zig::json::Json;
use zed_zig::provider::version::{
    fetch_api_version, fetch_github_version, select_asset, version_from_document,
};
use zed_zig::provider::{fetch_version, VersionInfo};
use zed_zig::settings::VersionSource;

fn release() -> GithubRelease {
    GithubRelease {
        version: "1.4.0".to_string(),
        assets: vec![
            GithubReleaseAsset {
                name: "tool-aarch64-macos.tar.gz".to_string(),
                download_url: "https://host/tool-aarch64-macos.tar.gz".to_string(),
            },
            GithubReleaseAsset {
                name: "tool-x86_64-linux-gnu.tar.gz".to_string(),
                download_url: "https://host/tool-x86_64-linux-gnu.tar.gz".to_string(),
            },
        ],
    }
}

fn github() -> VersionSource {
    VersionSource::GitHub { repo_url: "owner/tool".to_string(), pre_release: true }
}

fn api() -> VersionSource {
    VersionSource::ApiEndpoint { url: "https://example.com/versions".to_string() }
}

fn document() -> Vec<u8> {
    br#"{"version": "1.2.3", "aarch64-macos": {"tarball": "https://x/y.tar.gz"}}"#.to_vec()
}

fn missing(field: &str) -> Error {
    Error::Missing { field: field.to_string() }
}

#[test]
fn github_asset_matching_is_by_substring() {
    let found = Found::Release(Ok(release()));
    assert_eq!(
        fetch_version(&github(), "aarch64-macos", &found),
        Ok(VersionInfo {
            version: "1.4.0".to_string(),
            download_url: "https://host/tool-aarch64-macos.tar.gz".to_string(),
        })
    );
    assert_eq!(
        fetch_version(&github(), "aarch64-windows", &found),
        Err(Error::AssetNotFound("aarch64-windows".to_string()))
    );
    assert_eq!(
        fetch_version(&github(), "x86_64-linux-gnu", &found),
        Ok(VersionInfo {
            version: "1.4.0".to_string(),
            download_url: "https://host/tool-x86_64-linux-gnu.tar.gz".to_string(),
        })
    );
}

#[test]
fn github_asset_matching_takes_the_first_match() {
    let found = Found::Release(Ok(release()));
    assert_eq!(
        fetch_github_version(&found, "tool").map(|info| info.download_url),
        Ok("https://host/tool-aarch64-macos.tar.gz".to_string())
    );
    assert_eq!(
        select_asset(&release(), "").map(|info| info.download_url),
        Some("https://host/tool-aarch64-macos.tar.gz".to_string())
    );
    assert_eq!(select_asset(&release(), "linux").map(|info| info.version), Some("1.4.0".to_string()));
    let empty = GithubRelease { version: "1".to_string(), assets: vec![] };
    assert_eq!(select_asset(&empty, ""), None);
}

#[test]
fn github_lookup_failure_is_a_language_server_error() {
    let found = Found::Release(Err("rate limited".to_string()));
    assert_eq!(
        fetch_version(&github(), "aarch64-macos", &found),
        Err(Error::LanguageServer("rate limited".to_string()))
    );
    let other = Found::Body(Ok(document()));
    assert_eq!(
        fetch_version(&github(), "aarch64-macos", &other),
        Err(Error::LanguageServer("the host returned no release".to_string()))
    );
}

#[test]
fn api_endpoint_resolution() {
    let found = Found::Body(Ok(document()));
    assert_eq!(
        fetch_version(&api(), "aarch64-macos", &found),
        Ok(VersionInfo {
            version: "1.2.3".to_string(),
            download_url: "https://x/y.tar.gz".to_string(),
        })
    );
    assert_eq!(
        fetch_version(&api(), "x86_64-linux-gnu", &found),
        Err(missing("x86_64-linux-gnu.tarball"))
    );
}

#[test]
fn api_endpoint_missing_fields() {
    let parse = |text: &str| Json::parse(text.as_bytes()).unwrap();
    assert_eq!(
        version_from_document(&parse(r#"{"aarch64-macos": {"tarball": "u"}}"#), "aarch64-macos"),
        Err(missing("version"))
    );
    assert_eq!(
        version_from_document(&parse(r#"{"version": 3, "k": {"tarball": "u"}}"#), "k"),
        Err(missing("version"))
    );
    assert_eq!(
        version_from_document(&parse(r#"{"version": "1", "k": "u"}"#), "k"),
        Err(missing("k.tarball"))
    );
    assert_eq!(
        version_from_document(&parse(r#"{"version": "1", "k": {"zip": "u"}}"#), "k"),
        Err(missing("k.tarball"))
    );
    assert_eq!(
        version_from_document(&parse(r#"{"version": "1", "k": {"tarball": 5}}"#), "k"),
        Err(missing("k.tarball"))
    );
    assert_eq!(version_from_document(&parse("[]"), "k"), Err(missing("version")));
    assert_eq!(
        version_from_document(&parse(r#"{"version": "1", "k": {"tarball": ""}}"#), "k"),
        Ok(VersionInfo { version: "1".to_string(), download_url: String::new() })
    );
}

#[test]
fn api_endpoint_failures() {
    let url = "https://example.com/versions";
    assert_eq!(
        fetch_version(&api(), "k", &Found::Body(Err("timed out".to_string()))),
        Err(Error::FetchFailed { url: url.to_string(), error: "timed out".to_string() })
    );
    assert_eq!(
        fetch_version(&api(), "k", &Found::Release(Ok(release()))),
        Err(Error::FetchFailed {
            url: url.to_string(),
            error: "the host returned no response body".to_string(),
        })
    );
    assert_eq!(
        fetch_api_version(url, &Found::Body(Ok(b"{".to_vec())), "k"),
        Err(Error::LanguageServer(
            "Failed to parse JSON response: EOF while parsing an object at line 1 column 1"
                .to_string()
        ))
    );
}

#[test]
fn lookup_of_each_source() {
    assert_eq!(
        github().lookup(),
        Lookup::LatestGithubRelease {
            repo: "owner/tool".to_string(),
            options: GithubReleaseOptions { require_assets: true, pre_release: true },
        }
    );
    assert_eq!(api().lookup(), Lookup::Fetch { url: "https://example.com/versions".to_string() });
    let info = VersionInfo { version: "1".to_string(), download_url: "u".to_string() };
    assert_eq!(info.duplicate(), info);
}
