use vstd::prelude::*;
use crate::error::Error;
use crate::host::Found;
use crate::platform::{Architecture, Os};
use crate::provider::{defer_asset, deferred_asset, AssetStep, AssetStepView, LspProvider, step_view};
use crate::text::owned;

verus! {

/// The stable releases of ZLS.
#[derive(Debug, Default)]
pub struct ZlsStable;

impl LspProvider for ZlsStable {
    fn config(&self) -> (config: (&'static str, &'static str))
        ensures
            config.0@ == "zls"@,
            config.1@ == "zigtools/zls"@,
    {
        ("zls", "zigtools/zls")
    }

    fn asset_info(
        &self,
        name: &str,
        _platform: Os,
        _arch: Architecture,
        version: &str,
        _found: &Vec<Found>,
    ) -> (step: Result<AssetStep, Error>)
        ensures
            step_view(step) == Ok::<AssetStepView, crate::error::ErrorView>(
                AssetStepView::Ready(deferred_asset(name@, version@)),
            ),
    {
        Ok(AssetStep::Ready(defer_asset(name, version)))
    }

    fn binary_name(&self, name: &str, _platform_key: &str) -> (binary: String)
        ensures
            binary@ == name@,
    {
        owned(name)
    }
}

} // verus!
