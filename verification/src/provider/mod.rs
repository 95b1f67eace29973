//! The providers of the language server, and what each supplies: its
//! identity, the asset to install and the name of its binary.

pub mod custom;
pub mod version;
pub mod zigscient;
pub mod zls;
pub mod zls_stable;

pub use custom::Custom;
pub use version::{fetch_version, VersionInfo};
pub use zigscient::Zigscient;
pub use zls::Zls;
pub use zls_stable::ZlsStable;

use vstd::prelude::*;
use crate::error::{Error, ErrorView};
use crate::host::{Found, FoundView, Lookup, LookupView};
use crate::platform::{Architecture, Os};
use crate::settings::Provider;
use crate::text::{concat3, owned};

verus! {

/// The asset to install: the name of its install directory and, where the
/// provider resolved one itself, its download URL.
#[derive(Debug, Clone, PartialEq, Eq)]
pub struct AssetInfo {
    pub name: String,
    pub url: Option<String>,
}

/// An [`AssetInfo`] with its texts as character sequences.
pub struct AssetInfoView {
    pub name: Seq<char>,
    pub url: Option<Seq<char>>,
}

impl View for AssetInfo {
    type V = AssetInfoView;

    open spec fn view(&self) -> AssetInfoView {
        AssetInfoView { name: self.name@, url: self.url.deep_view() }
    }
}

/// Where a provider stands in resolving its asset.
#[derive(Debug, Clone, PartialEq, Eq)]
pub enum AssetStep {
    /// The provider needs the answer to this lookup first.
    Lookup(Lookup),
    /// The asset is resolved.
    Ready(AssetInfo),
}

/// An [`AssetStep`] with its texts as character sequences.
pub enum AssetStepView {
    Lookup(LookupView),
    Ready(AssetInfoView),
}

impl View for AssetStep {
    type V = AssetStepView;

    open spec fn view(&self) -> AssetStepView {
        match self {
            AssetStep::Lookup(lookup) => AssetStepView::Lookup(lookup@),
            AssetStep::Ready(asset) => AssetStepView::Ready(asset@),
        }
    }
}

/// The view of a result that holds a step.
pub open spec fn step_view(result: Result<AssetStep, Error>) -> Result<AssetStepView, ErrorView> {
    match result {
        Ok(step) => Ok(step@),
        Err(error) => Err(error@),
    }
}

/// The asset of a provider that resolves nothing itself: it is named
/// `{name}-{version}` and leaves the download URL to the resolved version.
pub open spec fn deferred_asset(name: Seq<char>, version: Seq<char>) -> AssetInfoView {
    AssetInfoView { name: name + "-"@ + version, url: None }
}

/// The asset of a provider that resolves nothing itself.
pub fn defer_asset(name: &str, version: &str) -> (asset: AssetInfo)
    ensures
        asset@ == deferred_asset(name@, version@),
{
    AssetInfo { name: concat3(name, "-", version), url: None }
}

/// What a provider of the language server supplies.
pub trait LspProvider {
    /// The canonical name of the provider and its upstream repository.
    fn config(&self) -> (&'static str, &'static str);

    /// The asset to install for `version`, or the lookup that the provider
    /// needs answered next. `found` holds the answers to the lookups it has
    /// asked for so far, in order.
    fn asset_info(
        &self,
        name: &str,
        platform: Os,
        arch: Architecture,
        version: &str,
        found: &Vec<Found>,
    ) -> Result<AssetStep, Error>;

    /// The file name of the binary; `name` itself unless the provider says
    /// otherwise.
    fn binary_name(&self, name: &str, _platform_key: &str) -> (binary: String)
        default_ensures
            binary@ == name@,
    {
        owned(name)
    }
}

/// The canonical name of a provider.
pub open spec fn provider_name(provider: Provider) -> Seq<char> {
    match provider {
        Provider::Zls => "zls"@,
        Provider::ZlsStable => "zls"@,
        Provider::Zigscient => "zigscient"@,
        Provider::Custom => "custom"@,
    }
}

/// The upstream repository of a provider; a custom provider has none.
pub open spec fn provider_repo(provider: Provider) -> Seq<char> {
    match provider {
        Provider::Zls => "zigtools/zls"@,
        Provider::ZlsStable => "zigtools/zls"@,
        Provider::Zigscient => "nuIIpointerexception/zigscient-builds"@,
        Provider::Custom => ""@,
    }
}

/// The file name of a provider's binary: Zigscient appends the platform
/// key to its name, the others use the name as it is.
pub open spec fn provider_binary_name(
    provider: Provider,
    name: Seq<char>,
    platform_key: Seq<char>,
) -> Seq<char> {
    match provider {
        Provider::Zigscient => name + "-"@ + platform_key,
        _ => name,
    }
}

/// The step of a provider's asset resolution after the answers `found`:
/// Zls resolves a build of its own, the others defer.
pub open spec fn provider_asset_info(
    provider: Provider,
    name: Seq<char>,
    platform: Os,
    arch: Architecture,
    version: Seq<char>,
    found: Seq<FoundView>,
) -> Result<AssetStepView, ErrorView> {
    match provider {
        Provider::Zls => zls::select_version(name, platform, arch, found),
        _ => Ok(AssetStepView::Ready(deferred_asset(name, version))),
    }
}

impl Provider {
    /// The canonical name of the provider and its upstream repository.
    pub fn config(self) -> (config: (&'static str, &'static str))
        ensures
            config.0@ == provider_name(self),
            config.1@ == provider_repo(self),
    {
        match self {
            Provider::Zls => Zls.config(),
            Provider::ZlsStable => ZlsStable.config(),
            Provider::Zigscient => Zigscient.config(),
            Provider::Custom => Custom.config(),
        }
    }

    /// The step of the provider's asset resolution after the answers `found`.
    pub fn asset_info(
        self,
        name: &str,
        platform: Os,
        arch: Architecture,
        version: &str,
        found: &Vec<Found>,
    ) -> (step: Result<AssetStep, Error>)
        ensures
            step_view(step) == provider_asset_info(
                self,
                name@,
                platform,
                arch,
                version@,
                found.deep_view(),
            ),
    {
        match self {
            Provider::Zls => Zls.asset_info(name, platform, arch, version, found),
            Provider::ZlsStable => ZlsStable.asset_info(name, platform, arch, version, found),
            Provider::Zigscient => Zigscient.asset_info(name, platform, arch, version, found),
            Provider::Custom => Custom.asset_info(name, platform, arch, version, found),
        }
    }

    /// The file name of the provider's binary.
    pub fn binary_name(self, name: &str, platform_key: &str) -> (binary: String)
        ensures
            binary@ == provider_binary_name(self, name@, platform_key@),
    {
        match self {
            Provider::Zls => Zls.binary_name(name, platform_key),
            Provider::ZlsStable => ZlsStable.binary_name(name, platform_key),
            Provider::Zigscient => Zigscient.binary_name(name, platform_key),
            Provider::Custom => Custom.binary_name(name, platform_key),
        }
    }
}

} // verus!
