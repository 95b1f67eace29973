use zed_zig::error::Error;
use zed_zig::host::{Found, Lookup};
use zed_zig::platform::{Architecture, Os};
use zed_zig::provider::{
    defer_asset, zls, AssetInfo, AssetStep, Custom, LspProvider, Zigscient, Zls, ZlsStable,
};
use zed_zig::settings::Provider;

const INDEX: &str = "https://ziglang.org/download/index.json";
const SELECT: &str = "https://releases.zigtools.org/v1/zls/select-version?zig_version=0%2E14%2E0%2Ddev%2E2%2Babc&compatibility=only-runtime";

fn body(text: &str) -> Found {
    Found::Body(Ok(text.as_bytes().to_vec()))
}

fn index() -> Found {
    body(r#"{"master": {"version": "0.14.0-dev.2+abc", "date": "2024-01-01"}, "0.13.0": {}}"#)
}

fn deferred(name: &str) -> Result<AssetStep, Error> {
    Ok(AssetStep::Ready(AssetInfo { name: name.to_string(), url: None }))
}

#[test]
fn config_of_each_provider() {
    assert_eq!(Zls.config(), ("zls", "zigtools/zls"));
    assert_eq!(ZlsStable.config(), ("zls", "zigtools/zls"));
    assert_eq!(Zigscient.config(), ("zigscient", "nuIIpointerexception/zigscient-builds"));
    assert_eq!(Custom.config(), ("custom", ""));
    assert_eq!(Provider::Zls.config(), Zls.config());
    assert_eq!(Provider::ZlsStable.config(), ZlsStable.config());
    assert_eq!(Provider::Zigscient.config(), Zigscient.config());
    assert_eq!(Provider::Custom.config(), Custom.config());
}

#[test]
fn binary_name_of_each_provider() {
    assert_eq!(Zls.binary_name("zls", "x86_64-linux-gnu"), "zls");
    assert_eq!(ZlsStable.binary_name("zls", "x86_64-linux-gnu"), "zls");
    assert_eq!(Custom.binary_name("custom", "aarch64-macos"), "custom");
    assert_eq!(
        Zigscient.binary_name("zigscient", "aarch64-macos"),
        "zigscient-aarch64-macos"
    );
    assert_eq!(Provider::Zigscient.binary_name("z", "k"), "z-k");
    assert_eq!(Provider::Zls.binary_name("z", "k"), "z");
    assert_eq!(Provider::ZlsStable.binary_name("z", "k"), "z");
    assert_eq!(Provider::Custom.binary_name("z", "k"), "z");
}

#[test]
fn asset_info_of_deferring_providers() {
    let none: Vec<Found> = Vec::new();
    assert_eq!(
        ZlsStable.asset_info("zls", Os::Linux, Architecture::X8664, "0.13.0", &none),
        deferred("zls-0.13.0")
    );
    assert_eq!(
        Zigscient.asset_info("zigscient", Os::Mac, Architecture::Aarch64, "0.1", &none),
        deferred("zigscient-0.1")
    );
    assert_eq!(
        Custom.asset_info("custom", Os::Windows, Architecture::X86, "", &vec![index()]),
        deferred("custom-")
    );
    assert_eq!(
        Provider::Custom.asset_info("custom", Os::Windows, Architecture::X86, "7", &none),
        deferred("custom-7")
    );
    assert_eq!(
        defer_asset("zls", "1.0"),
        AssetInfo { name: "zls-1.0".to_string(), url: None }
    );
}

#[test]
fn zls_asks_for_the_toolchain_index_first() {
    assert_eq!(
        Zls.asset_info("zls", Os::Linux, Architecture::X8664, "0.13.0", &Vec::new()),
        Ok(AssetStep::Lookup(Lookup::Fetch { url: INDEX.to_string() }))
    );
}

#[test]
fn zls_asks_the_release_service_for_the_toolchain_version() {
    assert_eq!(
        Zls.asset_info("zls", Os::Linux, Architecture::X8664, "0.13.0", &vec![index()]),
        Ok(AssetStep::Lookup(Lookup::Fetch { url: SELECT.to_string() }))
    );
    assert_eq!(
        Provider::Zls.asset_info("zls", Os::Mac, Architecture::Aarch64, "", &vec![index()]),
        Ok(AssetStep::Lookup(Lookup::Fetch { url: SELECT.to_string() }))
    );
}

#[test]
fn zls_takes_the_build_that_the_release_service_selects() {
    let selected = body(
        r#"{"version": "0.14.0-dev.5", "x86_64-linux": {"tarball": "https://builds/linux.tar.xz"}, "x86_64-windows": {"tarball": "https://builds/windows.zip"}}"#,
    );
    assert_eq!(
        Zls.asset_info("zls", Os::Linux, Architecture::X8664, "0.13.0", &vec![index(), selected]),
        Ok(AssetStep::Ready(AssetInfo {
            name: "zls-0.14.0-dev.5".to_string(),
            url: Some("https://builds/linux.tar.xz".to_string()),
        }))
    );
    let selected = body(
        r#"{"version": "0.14.0-dev.5", "x86_64-linux-gnu": {"tarball": "https://builds/linux.tar.xz"}}"#,
    );
    assert_eq!(
        Zls.asset_info("zls", Os::Linux, Architecture::X8664, "0.13.0", &vec![index(), selected]),
        Err(Error::Missing { field: "x86_64-linux.tarball".to_string() })
    );
}

#[test]
fn zls_platform_keys() {
    assert_eq!(zls::platform_key(Os::Linux, Architecture::X8664), "x86_64-linux");
    assert_eq!(zls::platform_key(Os::Mac, Architecture::Aarch64), "aarch64-macos");
    assert_eq!(zls::platform_key(Os::Windows, Architecture::X86), "x86-windows");
}

#[test]
fn zls_failures() {
    let run = |found: Vec<Found>| Zls.asset_info("zls", Os::Mac, Architecture::Aarch64, "", &found);
    assert_eq!(
        run(vec![Found::Body(Err("offline".to_string()))]),
        Err(Error::FetchFailed { url: INDEX.to_string(), error: "offline".to_string() })
    );
    assert_eq!(
        run(vec![body(r#"{"master": {"date": "2024"}}"#)]),
        Err(Error::Missing { field: "master.version".to_string() })
    );
    assert_eq!(
        run(vec![body(r#"{"0.13.0": {}}"#)]),
        Err(Error::Missing { field: "master".to_string() })
    );
    assert_eq!(
        run(vec![body("not json")]),
        Err(Error::LanguageServer(
            "Failed to parse JSON response: expected ident at line 1 column 2".to_string()
        ))
    );
    assert_eq!(
        run(vec![index(), Found::Body(Err("503".to_string()))]),
        Err(Error::FetchFailed { url: SELECT.to_string(), error: "503".to_string() })
    );
    assert_eq!(
        run(vec![index(), body(r#"{"aarch64-macos": {"tarball": "u"}}"#)]),
        Err(Error::Missing { field: "version".to_string() })
    );
}
