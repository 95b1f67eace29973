use vstd::prelude::*;
use crate::error::{Error, ErrorView};
use crate::host::{Found, FoundView, Lookup, LookupView};
use crate::platform::{arch_name, architecture_name, Architecture, Os};
use crate::provider::version::{api_version, fetch_api_version, VersionInfoView};
use crate::provider::{AssetInfo, AssetInfoView, AssetStep, AssetStepView, LspProvider, step_view};
use crate::text::{concat3, owned};
use crate::util::{fetch_json, fetched_json, nested_str, url_encode, url_encoded, JsonExt};

verus! {

/// The builds of ZLS that follow the Zig toolchain: the build installed is
/// the one that the release service selects for the current toolchain.
#[derive(Debug, Default)]
pub struct Zls;

/// Where the versions of the Zig toolchain are listed.
pub open spec fn index_url() -> Seq<char> {
    "https://ziglang.org/download/index.json"@
}

/// Where the release service selects the build for a toolchain version:
/// the version is percent-encoded, and only builds that the toolchain can
/// run are asked for.
pub open spec fn select_version_url(zig_version: Seq<char>) -> Seq<char> {
    "https://releases.zigtools.org/v1/zls/select-version?zig_version="@ + url_encoded(zig_version)
        + "&compatibility=only-runtime"@
}

/// The key of a platform in the answers of the release service.
pub open spec fn release_key(os: Os, arch: Architecture) -> Seq<char> {
    arch_name(arch) + "-"@ + match os {
        Os::Mac => "macos"@,
        Os::Linux => "linux"@,
        Os::Windows => "windows"@,
    }
}

/// The asset of a selected build: named `{name}-{version}`, with the
/// download URL of the build.
pub open spec fn selected_asset(name: Seq<char>, info: VersionInfoView) -> AssetInfoView {
    AssetInfoView { name: name + "-"@ + info.version, url: Some(info.download_url) }
}

/// The step of the resolution after the answers `found`. First the index
/// of the toolchain is fetched; its string `master.version` is the current
/// toolchain. Then the release service is asked for the build that runs
/// with it. The answer of the service gives the asset.
pub open spec fn select_version(
    name: Seq<char>,
    os: Os,
    arch: Architecture,
    found: Seq<FoundView>,
) -> Result<AssetStepView, ErrorView> {
    if found.len() == 0 {
        Ok(AssetStepView::Lookup(LookupView::Fetch { url: index_url() }))
    } else {
        match fetched_json(index_url(), found[0].body()) {
            Err(error) => Err(error),
            Ok(index) => match nested_str(index, "master.version"@) {
                Err(error) => Err(error),
                Ok(zig_version) => if found.len() == 1 {
                    Ok(AssetStepView::Lookup(LookupView::Fetch { url: select_version_url(zig_version) }))
                } else {
                    match api_version(
                        select_version_url(zig_version),
                        found[1].body(),
                        release_key(os, arch),
                    ) {
                        Err(error) => Err(error),
                        Ok(info) => Ok(AssetStepView::Ready(selected_asset(name, info))),
                    }
                },
            },
        }
    }
}

/// The key of a platform in the answers of the release service.
pub fn platform_key(os: Os, arch: Architecture) -> (key: String)
    ensures
        key@ == release_key(os, arch),
{
    let suffix = match os {
        Os::Mac => "macos",
        Os::Linux => "linux",
        Os::Windows => "windows",
    };
    concat3(architecture_name(arch), "-", suffix)
}

/// The document of a fetch, where the answer of the other kind is a fetch
/// that failed.
fn fetched_document(url: &str, found: &Found) -> (fetched: Result<crate::json::Json, Error>)
    ensures
        match fetched {
            Ok(doc) => fetched_json(url@, found@.body()) == Ok::<crate::json::Json, ErrorView>(doc),
            Err(error) => fetched_json(url@, found@.body()) == Err::<crate::json::Json, ErrorView>(
                error@,
            ),
        },
{
    match found {
        Found::Body(response) => fetch_json(url, response),
        Found::Release(_) => {
            let response: Result<Vec<u8>, String> = Err(owned("the host returned no response body"));
            fetch_json(url, &response)
        },
    }
}

impl LspProvider for Zls {
    fn config(&self) -> (config: (&'static str, &'static str))
        ensures
            config.0@ == "zls"@,
            config.1@ == "zigtools/zls"@,
    {
        ("zls", "zigtools/zls")
    }

    fn asset_info(
        &self,
        name: &str,
        platform: Os,
        arch: Architecture,
        _version: &str,
        found: &Vec<Found>,
    ) -> (step: Result<AssetStep, Error>)
        ensures
            step_view(step) == select_version(name@, platform, arch, found.deep_view()),
    {
        let index_url = "https://ziglang.org/download/index.json";
        if found.len() == 0 {
            return Ok(AssetStep::Lookup(Lookup::Fetch { url: owned(index_url) }));
        }
        assert(found.deep_view()[0] == found[0]@);
        let index = match fetched_document(index_url, &found[0]) {
            Ok(index) => index,
            Err(error) => { return Err(error); },
        };
        let zig_version = match index.get_nested_str("master.version") {
            Ok(zig_version) => zig_version,
            Err(error) => { return Err(error); },
        };
        let endpoint_url = concat3(
            "https://releases.zigtools.org/v1/zls/select-version?zig_version=",
            url_encode(zig_version).as_str(),
            "&compatibility=only-runtime",
        );
        if found.len() == 1 {
            return Ok(AssetStep::Lookup(Lookup::Fetch { url: endpoint_url }));
        }
        assert(found.deep_view()[1] == found[1]@);
        let key = platform_key(platform, arch);
        match fetch_api_version(endpoint_url.as_str(), &found[1], key.as_str()) {
            Ok(info) => Ok(
                AssetStep::Ready(
                    AssetInfo {
                        name: concat3(name, "-", info.version.as_str()),
                        url: Some(info.download_url),
                    },
                ),
            ),
            Err(error) => Err(error),
        }
    }

    fn binary_name(&self, name: &str, _platform_key: &str) -> (binary: String)
        ensures
            binary@ == name@,
    {
        owned(name)
    }
}

} // verus!
