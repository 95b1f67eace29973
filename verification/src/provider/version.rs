//! From the host's answer to the version to install.

use vstd::prelude::*;
use crate::error::{Error, ErrorView};
use crate::host::{
    Found, FoundView, GithubRelease, GithubReleaseAssetView, GithubReleaseOptions,
    GithubReleaseView, Lookup, LookupView,
};
use crate::json::Json;
use crate::settings::{text_member, VersionSource, VersionSourceView};
use crate::text::{chars_contain, chars_of, concat2, is_substring, owned};
use crate::util::{fetch_json, fetched_json, missing, obj_field, str_field, JsonExt};

verus! {

/// The release to install.
#[derive(Debug, Clone, PartialEq, Eq)]
pub struct VersionInfo {
    pub version: String,
    pub download_url: String,
}

/// A [`VersionInfo`] with its texts as character sequences.
pub struct VersionInfoView {
    pub version: Seq<char>,
    pub download_url: Seq<char>,
}

impl View for VersionInfo {
    type V = VersionInfoView;

    open spec fn view(&self) -> VersionInfoView {
        VersionInfoView { version: self.version@, download_url: self.download_url@ }
    }
}

impl DeepView for VersionInfo {
    type V = VersionInfoView;

    open spec fn deep_view(&self) -> VersionInfoView {
        self@
    }
}

impl VersionInfo {
    /// A copy of this release.
    pub fn duplicate(&self) -> (copy: VersionInfo)
        ensures
            copy@ == self@,
    {
        VersionInfo { version: self.version.clone(), download_url: self.download_url.clone() }
    }
}

/// The first of `assets` whose name holds `platform` as a substring.
pub open spec fn matching_asset(assets: Seq<GithubReleaseAssetView>, platform: Seq<char>) -> Option<
    GithubReleaseAssetView,
>
    decreases assets.len(),
{
    if assets.len() == 0 {
        None
    } else if is_substring(assets[0].name, platform) {
        Some(assets[0])
    } else {
        matching_asset(assets.drop_first(), platform)
    }
}

/// The version that a release offers for `platform`: that of the release,
/// with the download URL of the matching asset.
pub open spec fn version_in_release(release: GithubReleaseView, platform: Seq<char>) -> Option<
    VersionInfoView,
> {
    match matching_asset(release.assets, platform) {
        Some(asset) => Some(
            VersionInfoView { version: release.version, download_url: asset.download_url },
        ),
        None => None,
    }
}

/// What the answer to a release lookup comes to: a failed lookup is
/// `LanguageServer` with the host's words, a release without a matching
/// asset is `AssetNotFound` with the platform key.
pub open spec fn github_version(
    release: Result<GithubReleaseView, Seq<char>>,
    platform: Seq<char>,
) -> Result<VersionInfoView, ErrorView> {
    match release {
        Err(error) => Err(ErrorView::LanguageServer(error)),
        Ok(release) => match version_in_release(release, platform) {
            Some(info) => Ok(info),
            None => Err(ErrorView::AssetNotFound(platform)),
        },
    }
}

/// The dotted path of the download URL for `platform`.
pub open spec fn tarball_path(platform: Seq<char>) -> Seq<char> {
    platform + ".tarball"@
}

/// The version that an endpoint's document offers for `platform`: the
/// string `version`, and as download URL the string `tarball` of the object
/// named `platform`. What is absent, or of another type, is `Missing` with
/// its dotted path.
pub open spec fn version_in_document(doc: Json, platform: Seq<char>) -> Result<
    VersionInfoView,
    ErrorView,
> {
    match str_field(doc, "version"@) {
        Err(error) => Err(error),
        Ok(version) => match obj_field(doc, platform) {
            Err(_) => Err(missing(tarball_path(platform))),
            Ok(entry) => match text_member(entry, "tarball"@) {
                Some(download_url) => Ok(VersionInfoView { version, download_url }),
                None => Err(missing(tarball_path(platform))),
            },
        },
    }
}

/// What the response of an endpoint comes to.
pub open spec fn api_version(
    url: Seq<char>,
    response: Result<Seq<u8>, Seq<char>>,
    platform: Seq<char>,
) -> Result<VersionInfoView, ErrorView> {
    match fetched_json(url, response) {
        Err(error) => Err(error),
        Ok(doc) => version_in_document(doc, platform),
    }
}

impl VersionSourceView {
    /// What the host is asked for this source: the latest release of the
    /// repository, with assets, or the document at the endpoint.
    pub open spec fn lookup(self) -> LookupView {
        match self {
            VersionSourceView::GitHub { repo_url, pre_release } => LookupView::LatestGithubRelease {
                repo: repo_url,
                options: GithubReleaseOptions { require_assets: true, pre_release },
            },
            VersionSourceView::ApiEndpoint { url } => LookupView::Fetch { url },
        }
    }

    /// The version that the host's answer gives for `platform`.
    pub open spec fn version(self, platform: Seq<char>, found: FoundView) -> Result<
        VersionInfoView,
        ErrorView,
    > {
        match self {
            VersionSourceView::GitHub { .. } => github_version(found.release(), platform),
            VersionSourceView::ApiEndpoint { url } => api_version(url, found.body(), platform),
        }
    }
}

impl VersionSource {
    /// What the host is asked for this source.
    pub fn lookup(&self) -> (lookup: Lookup)
        ensures
            lookup@ == self@.lookup(),
    {
        match self {
            VersionSource::GitHub { repo_url, pre_release } => Lookup::LatestGithubRelease {
                repo: repo_url.clone(),
                options: GithubReleaseOptions { require_assets: true, pre_release: *pre_release },
            },
            VersionSource::ApiEndpoint { url } => Lookup::Fetch { url: url.clone() },
        }
    }
}

/// The view of a result that holds a version.
pub open spec fn version_view(result: Result<VersionInfo, Error>) -> Result<
    VersionInfoView,
    ErrorView,
> {
    match result {
        Ok(info) => Ok(info@),
        Err(error) => Err(error@),
    }
}

/// The version that `release` offers for `platform`.
pub fn select_asset(release: &GithubRelease, platform: &str) -> (info: Option<VersionInfo>)
    ensures
        info.deep_view() == version_in_release(release@, platform@),
{
    let wanted = chars_of(platform);
    let mut i: usize = 0;
    assert(release.assets.deep_view().skip(0) == release.assets.deep_view());
    while i < release.assets.len()
        invariant
            i <= release.assets.len(),
            wanted@ == platform@,
            matching_asset(release.assets.deep_view(), platform@) == matching_asset(
                release.assets.deep_view().skip(i as int),
                platform@,
            ),
        decreases release.assets.len() - i,
    {
        let name = chars_of(release.assets[i].name.as_str());
        assert(release.assets.deep_view().skip(i as int)[0] == release.assets[i as int]@);
        if chars_contain(&name, &wanted) {
            return Some(
                VersionInfo {
                    version: release.version.clone(),
                    download_url: release.assets[i].download_url.clone(),
                },
            );
        }
        assert(release.assets.deep_view().skip(i as int).drop_first()
            == release.assets.deep_view().skip(i + 1));
        i = i + 1;
    }
    None
}

/// The version that the answer to a release lookup gives for `platform`.
pub fn fetch_github_version(found: &Found, platform: &str) -> (result: Result<VersionInfo, Error>)
    ensures
        version_view(result) == github_version(found@.release(), platform@),
{
    match found {
        Found::Release(Ok(release)) => match select_asset(release, platform) {
            Some(info) => Ok(info),
            None => Err(Error::AssetNotFound(owned(platform))),
        },
        Found::Release(Err(error)) => Err(Error::LanguageServer(error.clone())),
        Found::Body(_) => Err(Error::LanguageServer(owned("the host returned no release"))),
    }
}

/// The version that `doc` offers for `platform`.
pub fn version_from_document(doc: &Json, platform: &str) -> (result: Result<VersionInfo, Error>)
    ensures
        version_view(result) == version_in_document(*doc, platform@),
{
    let version = match doc.get_str("version") {
        Ok(version) => owned(version),
        Err(error) => { return Err(error); },
    };
    let tarball = match doc.get_obj(platform) {
        Ok(entry) => match entry.get("tarball") {
            Some(value) => value.as_str(),
            None => None,
        },
        Err(_) => None,
    };
    match tarball {
        Some(download_url) => Ok(VersionInfo { version, download_url: owned(download_url) }),
        None => Err(Error::Missing { field: concat2(platform, ".tarball") }),
    }
}

/// The version that the response of the endpoint `url` gives for `platform`.
pub fn fetch_api_version(url: &str, found: &Found, platform: &str) -> (result: Result<
    VersionInfo,
    Error,
>)
    ensures
        version_view(result) == api_version(url@, found@.body(), platform@),
{
    let fetched = match found {
        Found::Body(response) => fetch_json(url, response),
        Found::Release(_) => {
            let response: Result<Vec<u8>, String> = Err(owned("the host returned no response body"));
            fetch_json(url, &response)
        },
    };
    match fetched {
        Ok(doc) => version_from_document(&doc, platform),
        Err(error) => Err(error),
    }
}

/// Resolves the version to install from the host's answer to the lookup
/// that `source` calls for.
pub fn fetch_version(source: &VersionSource, platform: &str, found: &Found) -> (result: Result<
    VersionInfo,
    Error,
>)
    ensures
        version_view(result) == source@.version(platform@, found@),
{
    match source {
        VersionSource::GitHub { .. } => fetch_github_version(found, platform),
        VersionSource::ApiEndpoint { url } => fetch_api_version(url.as_str(), found, platform),
    }
}

/// Asset matching takes the first match: the asset chosen holds the
/// platform key in its name, and no asset before it in the listing does.
pub proof fn matching_asset_is_first(assets: Seq<GithubReleaseAssetView>, platform: Seq<char>)
    ensures
        match matching_asset(assets, platform) {
            Some(asset) => exists|i: int|
                0 <= i < assets.len() && assets[i] == asset && is_substring(assets[i].name, platform)
                    && forall|j: int| 0 <= j < i ==> !is_substring(#[trigger] assets[j].name, platform),
            None => forall|j: int|
                0 <= j < assets.len() ==> !is_substring(#[trigger] assets[j].name, platform),
        },
    decreases assets.len(),
{
    if assets.len() > 0 && !is_substring(assets[0].name, platform) {
        let rest = assets.drop_first();
        matching_asset_is_first(rest, platform);
        assert(forall|j: int| 0 <= j < rest.len() ==> rest[j] == assets[j + 1]);
        match matching_asset(rest, platform) {
            Some(asset) => {
                let i = choose|i: int|
                    0 <= i < rest.len() && rest[i] == asset && is_substring(rest[i].name, platform)
                        && forall|j: int|
                        0 <= j < i ==> !is_substring(#[trigger] rest[j].name, platform);
                assert forall|j: int| 0 <= j < i + 1 implies !is_substring(
                    #[trigger] assets[j].name,
                    platform,
                ) by {
                    if j > 0 {
                        assert(rest[j - 1] == assets[j]);
                    }
                }
                assert(assets[i + 1] == asset);
            },
            None => {
                assert forall|j: int| 0 <= j < assets.len() implies !is_substring(
                    #[trigger] assets[j].name,
                    platform,
                ) by {
                    if j > 0 {
                        assert(rest[j - 1] == assets[j]);
                    }
                }
            },
        }
    } else if assets.len() > 0 {
        assert(assets[0] == assets[0] && is_substring(assets[0].name, platform));
    }
}

} // verus!
