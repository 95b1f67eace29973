use zed_zig::error::Error;

#[test]
fn message_of_each_failure() {
    let s = |text: &str| text.to_string();
    assert_eq!(Error::AssetNotFound(s("x86-windows")).message(), "Asset not found: x86-windows");
    assert_eq!(Error::DownloadFailed(s("timeout")).message(), "Download failed: timeout");
    assert_eq!(Error::FileSystem(s("denied")).message(), "File system error: denied");
    assert_eq!(Error::InstallationFailed(s("full")).message(), "Installation failed: full");
    assert_eq!(Error::LanguageServer(s("gone")).message(), "Language server error: gone");
    assert_eq!(
        Error::FetchFailed { url: s("https://x/y"), error: s("404") }.message(),
        "Failed to fetch from https://x/y: 404"
    );
    assert_eq!(
        Error::Missing { field: s("master.version") }.message(),
        "Missing field in response: master.version"
    );
    assert_eq!(Error::SerializationFailed(s("nan")).message(), "Failed to serialize: nan");
    assert_eq!(Error::Settings(s("none")).message(), "Failed to get settings: none");
    assert_eq!(
        Error::Configuration { message: s("Invalid URL"), fix: s("Use https") }.message(),
        "Configuration error: Invalid URL. Use https"
    );
}

#[test]
fn duplicate_copies_a_failure() {
    let error = Error::FetchFailed { url: "u".to_string(), error: "e".to_string() };
    assert_eq!(error.duplicate(), error);
    let error = Error::Missing { field: "a.b".to_string() };
    assert_eq!(error.duplicate(), error);
}
