//! A whole pass, from its first request to `Done`, against a host whose
//! answers depend on the request alone, and what such a pass comes to.
//!
//! The controller takes one reply at a time. Here the replies of a pass are
//! put together: [`outcome`] says, as one function of the host, which
//! command the pass ends with, and [`pass_comes_to_outcome`] shows that the
//! controller, driven by that host, ends with it.

use vstd::prelude::*;
use crate::error::ErrorView;
use crate::extension::{install_plan, ExtensionView, InstallPlanView, PassView, Stage};
use crate::host::{CommandView, FoundView, LookupView, ReplyView, RequestView};
use crate::platform::{archive_of, Architecture, DownloadedFileType, Os};
use crate::provider::version::{api_version, VersionInfoView};
use crate::provider::zls::{index_url, release_key, select_version_url, selected_asset};
use crate::provider::{deferred_asset, provider_binary_name, provider_name, AssetInfoView};
use crate::settings::{LspSettings, Provider, ZigToolingView};
use crate::util::{fetched_json, nested_str};

verus! {

/// A host whose answers depend on the request alone.
pub struct Host {
    /// The paths that name an existing regular file.
    pub files: Set<Seq<char>>,
    /// Where on `PATH` the binary of a name is, if anywhere.
    pub on_path: spec_fn(Seq<char>) -> Option<Seq<char>>,
    /// The answer to a lookup.
    pub found: spec_fn(LookupView) -> FoundView,
    /// Whether a directory can be created.
    pub directory_created: spec_fn(Seq<char>) -> Result<(), Seq<char>>,
    /// Whether an archive can be downloaded and unpacked.
    pub downloaded: spec_fn(Seq<char>, Seq<char>, DownloadedFileType) -> Result<(), Seq<char>>,
    /// Whether a file can be marked executable.
    pub made_executable: spec_fn(Seq<char>) -> Result<(), Seq<char>>,
    /// The shell environment of the worktree.
    pub shell_env: Seq<(Seq<char>, Seq<char>)>,
}

impl Host {
    /// The reply of the host to a request.
    pub open spec fn reply(self, request: RequestView) -> ReplyView {
        match request {
            RequestView::IsFile(path) => ReplyView::IsFile(self.files.contains(path)),
            RequestView::Which(name) => ReplyView::Which((self.on_path)(name)),
            RequestView::SetStatus(_) => ReplyView::StatusSet,
            RequestView::Lookup(lookup) => ReplyView::Found((self.found)(lookup)),
            RequestView::CreateDirectory(directory) => ReplyView::DirectoryCreated(
                (self.directory_created)(directory),
            ),
            RequestView::DownloadFile { url, directory, file_type } => ReplyView::Downloaded(
                (self.downloaded)(url, directory, file_type),
            ),
            RequestView::MakeExecutable(path) => ReplyView::MadeExecutable(
                (self.made_executable)(path),
            ),
            RequestView::ShellEnv => ReplyView::ShellEnv(self.shell_env),
            RequestView::Done(_) => ReplyView::StatusSet,
        }
    }

    /// The environment of the command on an operating system: none on
    /// Windows, the shell environment of the worktree elsewhere.
    pub open spec fn environment(self, os: Os) -> Seq<(Seq<char>, Seq<char>)> {
        if os == Os::Windows {
            Seq::empty()
        } else {
            self.shell_env
        }
    }
}

/// The state and the request after at most `steps` replies of `host`; it
/// stays where the request is `Done`.
pub open spec fn run(state: ExtensionView, request: RequestView, host: Host, steps: nat) -> (
    ExtensionView,
    RequestView,
)
    decreases steps,
{
    if steps == 0 || request is Done {
        (state, request)
    } else {
        match state.step(host.reply(request)) {
            Some((next, following)) => run(next, following, host, (steps - 1) as nat),
            None => (state, request),
        }
    }
}

/// The binary that is there already: the configured path if it names a
/// file, else the provider's binary on `PATH`, else the cached path if it
/// names a file.
pub open spec fn existing_binary(
    config: ZigToolingView,
    cached: Option<Seq<char>>,
    host: Host,
) -> Option<Seq<char>> {
    if config.path matches Some(path) && host.files.contains(path) {
        config.path
    } else if (host.on_path)(provider_name(config.provider)) is Some {
        (host.on_path)(provider_name(config.provider))
    } else if cached matches Some(path) && host.files.contains(path) {
        cached
    } else {
        None
    }
}

/// The asset that a provider resolves for `version`. Zls fetches the index
/// of the toolchain, takes its `master.version` and asks the release
/// service for the build that runs with it; the others defer.
pub open spec fn asset_of(
    provider: Provider,
    os: Os,
    arch: Architecture,
    version: Seq<char>,
    host: Host,
) -> Result<AssetInfoView, ErrorView> {
    let name = provider_name(provider);
    match provider {
        Provider::Zls => {
            let index = (host.found)(LookupView::Fetch { url: index_url() });
            match fetched_json(index_url(), index.body()) {
                Err(error) => Err(error),
                Ok(index) => match nested_str(index, "master.version"@) {
                    Err(error) => Err(error),
                    Ok(zig_version) => {
                        let url = select_version_url(zig_version);
                        let selected = (host.found)(LookupView::Fetch { url });
                        match api_version(url, selected.body(), release_key(os, arch)) {
                            Err(error) => Err(error),
                            Ok(info) => Ok(selected_asset(name, info)),
                        }
                    },
                },
            }
        },
        _ => Ok(deferred_asset(name, version)),
    }
}

/// What carrying out an install plan comes to: the path of the binary, or
/// why there is none. Unless the binary is there already, the directory is
/// created, the archive downloaded and unpacked and the binary marked
/// executable, in this order, and the first failure is the outcome.
pub open spec fn carried_out(plan: InstallPlanView, os: Os, host: Host) -> Result<
    Seq<char>,
    ErrorView,
> {
    if host.files.contains(plan.binary_path) {
        Ok(plan.binary_path)
    } else {
        match (host.directory_created)(plan.directory) {
            Err(error) => Err(
                ErrorView::InstallationFailed(
                    "Failed to create directory "@ + plan.directory + ": "@ + error,
                ),
            ),
            Ok(_) => match (host.downloaded)(plan.download_url, plan.directory, archive_of(os)) {
                Err(error) => Err(
                    ErrorView::DownloadFailed(
                        "Failed to download from "@ + plan.download_url + ": "@ + error,
                    ),
                ),
                Ok(_) => match (host.made_executable)(plan.binary_path) {
                    Err(error) => Err(ErrorView::FileSystem(error)),
                    Ok(_) => Ok(plan.binary_path),
                },
            },
        }
    }
}

/// What the install of an asset comes to, where the resolved version
/// offers the archive at `download_url`.
pub open spec fn asset_installed(
    state: ExtensionView,
    asset: AssetInfoView,
    download_url: Seq<char>,
    host: Host,
) -> Result<Seq<char>, ErrorView> {
    match install_plan(
        asset,
        download_url,
        provider_binary_name(state.current_settings.provider, state.name(), state.platform_key()),
        state.pass.os,
    ) {
        Err(error) => Err(error),
        Ok(plan) => carried_out(plan, state.pass.os, host),
    }
}

/// What the install of a version comes to: its asset is resolved and
/// installed.
pub open spec fn version_installed(state: ExtensionView, info: VersionInfoView, host: Host) -> Result<
    Seq<char>,
    ErrorView,
> {
    match asset_of(
        state.current_settings.provider,
        state.pass.os,
        state.pass.arch,
        info.version,
        host,
    ) {
        Err(error) => Err(error),
        Ok(asset) => asset_installed(state, asset, info.download_url, host),
    }
}

/// The path of the binary after an install, or why there is none: the
/// version is looked up, its asset resolved and installed.
pub open spec fn installed_binary(state: ExtensionView, host: Host) -> Result<Seq<char>, ErrorView> {
    match state.version_lookup() {
        Err(error) => Err(error),
        Ok(lookup) => match state.version((host.found)(lookup)) {
            Err(error) => Err(error),
            Ok(info) => version_installed(state, info, host),
        },
    }
}

/// What the session is once the configuration is settled: the state with
/// that configuration and a fresh pass on the platform.
pub open spec fn session(
    state: ExtensionView,
    config: ZigToolingView,
    os: Os,
    arch: Architecture,
) -> ExtensionView {
    ExtensionView { current_settings: config, pass: PassView::fresh(os, arch), ..state }
}

/// The path of the binary that a pass resolves: the binary that is there
/// already, else the binary installed.
pub open spec fn resolved_binary(state: ExtensionView, host: Host) -> Result<Seq<char>, ErrorView> {
    match existing_binary(state.current_settings, state.cached_binary_path, host) {
        Some(path) => Ok(path),
        None => installed_binary(state, host),
    }
}

/// What a pass comes to: the rejection of settings that are not
/// acceptable; else the failure to resolve a binary; else the command that
/// starts the binary resolved, with the configured arguments and the
/// environment that the platform calls for.
pub open spec fn outcome(
    state: ExtensionView,
    settings: Option<LspSettings>,
    os: Os,
    arch: Architecture,
    host: Host,
) -> Result<CommandView, ErrorView> {
    match state.configured(settings) {
        Err(error) => Err(error),
        Ok(config) => {
            let session = session(state, config, os, arch);
            match resolved_binary(session, host) {
                Err(error) => Err(error),
                Ok(path) => Ok(session.command(path, host.environment(os))),
            }
        },
    }
}

/// The cached path after a pass: the path of the binary where the pass
/// installed one, or found one installed; else the cached path before it.
pub open spec fn cached_after(
    state: ExtensionView,
    settings: Option<LspSettings>,
    os: Os,
    arch: Architecture,
    host: Host,
) -> Option<Seq<char>> {
    match state.configured(settings) {
        Err(_) => state.cached_binary_path,
        Ok(config) => {
            let session = session(state, config, os, arch);
            if existing_binary(config, state.cached_binary_path, host) is Some {
                state.cached_binary_path
            } else {
                match installed_binary(session, host) {
                    Ok(path) => Some(path),
                    Err(_) => state.cached_binary_path,
                }
            }
        },
    }
}

/// Where two states are of one session: the same cached path, the same
/// configuration, the same platform.
pub open spec fn same_session(one: ExtensionView, other: ExtensionView) -> bool {
    &&& one.cached_binary_path == other.cached_binary_path
    &&& one.current_settings == other.current_settings
    &&& one.pass.os == other.pass.os
    &&& one.pass.arch == other.pass.arch
}

/// Running on takes up where running left off.
pub proof fn run_continues(
    state: ExtensionView,
    request: RequestView,
    host: Host,
    first: nat,
    then: nat,
)
    ensures
        run(state, request, host, first + then) == run(
            run(state, request, host, first).0,
            run(state, request, host, first).1,
            host,
            then,
        ),
    decreases first,
{
    if first == 0 || request is Done {
        if request is Done {
            assert(run(state, request, host, first + then) == (state, request));
            assert(run(state, request, host, then) == (state, request));
        }
    } else {
        match state.step(host.reply(request)) {
            Some((next, following)) => {
                run_continues(next, following, host, (first - 1) as nat, then);
                assert(first + then - 1 == (first - 1) as nat + then);
            },
            None => {
                assert(run(state, request, host, then) == (state, request));
            },
        }
    }
}

/// A pass that has ended stays ended.
pub proof fn run_rests(state: ExtensionView, request: RequestView, host: Host, steps: nat, more: nat)
    requires
        run(state, request, host, steps).1 is Done,
    ensures
        run(state, request, host, steps + more) == run(state, request, host, steps),
{
    run_continues(state, request, host, steps, more);
}

/// Whether a run from a state of the session of `state` has ended as the
/// resolution `binary` calls for: with its failure, or with the command
/// that starts its path; with the cached path replaced where the path was
/// installed, and nothing else of the session changed.
pub open spec fn ends_with(
    end: (ExtensionView, RequestView),
    state: ExtensionView,
    binary: Result<Seq<char>, ErrorView>,
    installed: bool,
    host: Host,
) -> bool {
    &&& end.0.pass.stage == Stage::Idle
    &&& end.0.current_settings == state.current_settings
    &&& match binary {
        Ok(path) => {
            &&& end.1 == RequestView::Done(
                Ok(state.command(path, host.environment(state.pass.os))),
            )
            &&& end.0.cached_binary_path == if installed {
                Some(path)
            } else {
                state.cached_binary_path
            }
        },
        Err(error) => {
            &&& end.1 == RequestView::Done(Err(error))
            &&& end.0.cached_binary_path == state.cached_binary_path
        },
    }
}

/// A binary that is resolved gives the command within one reply.
pub proof fn resolved_ends(state: ExtensionView, path: Seq<char>, host: Host, steps: nat)
    requires
        steps >= 1,
    ensures
        ends_with(
            run(state.resolved(path).0, state.resolved(path).1, host, steps),
            state,
            Ok(path),
            false,
            host,
        ),
{
    reveal_with_fuel(run, 2);
}

/// The install of an asset ends within six replies.
pub proof fn install_ends(state: ExtensionView, asset: AssetInfoView, host: Host, steps: nat)
    requires
        steps >= 6,
    ensures
        ends_with(
            run(state.install(asset).0, state.install(asset).1, host, steps),
            state,
            asset_installed(state, asset, state.pass.download_url, host),
            true,
            host,
        ),
{
    let (probing, probe) = state.install(asset);
    if probe is Done {
    } else {
        let path = probing.pass.path;
        let kept = ExtensionView { cached_binary_path: Some(path), ..probing };
        if host.files.contains(path) {
            run_continues(probing, probe, host, 1, (steps - 1) as nat);
            resolved_ends(kept, path, host, (steps - 1) as nat);
            reveal_with_fuel(run, 2);
        } else {
            run_continues(probing, probe, host, 5, (steps - 5) as nat);
            reveal_with_fuel(run, 6);
            let kept = ExtensionView {
                cached_binary_path: Some(path),
                ..probing.at(Stage::Executable)
            };
            resolved_ends(kept, path, host, (steps - 5) as nat);
        }
    }
}

/// The resolution of the asset of the version held by the pass, and its
/// install, end within eight replies.
pub proof fn resolve_asset_ends(state: ExtensionView, host: Host, steps: nat)
    requires
        state.pass.found == Seq::<FoundView>::empty(),
        steps >= 8,
    ensures
        ends_with(
            run(state.resolve_asset().0, state.resolve_asset().1, host, steps),
            state,
            version_installed(
                state,
                VersionInfoView {
                    version: state.pass.version,
                    download_url: state.pass.download_url,
                },
                host,
            ),
            true,
            host,
        ),
{
    let provider = state.current_settings.provider;
    let (asking, ask) = state.resolve_asset();
    if provider == Provider::Zls {
        let first = (host.found)(LookupView::Fetch { url: index_url() });
        let one = ExtensionView {
            pass: PassView { found: state.pass.found.push(first), ..asking.pass },
            ..asking
        };
        assert(one.pass.found.len() == 1 && one.pass.found[0] == first);
        run_continues(asking, ask, host, 1, (steps - 1) as nat);
        reveal_with_fuel(run, 2);
        assert(run(asking, ask, host, 1) == one.resolve_asset());
        match fetched_json(index_url(), first.body()) {
            Err(_) => {},
            Ok(index) => match nested_str(index, "master.version"@) {
                Err(_) => {},
                Ok(zig_version) => {
                    let (asking_again, ask_again) = one.resolve_asset();
                    let url = select_version_url(zig_version);
                    let second = (host.found)(LookupView::Fetch { url });
                    let two = ExtensionView {
                        pass: PassView { found: one.pass.found.push(second), ..asking_again.pass },
                        ..asking_again
                    };
                    assert(two.pass.found.len() == 2 && two.pass.found[0] == first
                        && two.pass.found[1] == second);
                    run_continues(asking_again, ask_again, host, 1, (steps - 2) as nat);
                    assert(run(asking_again, ask_again, host, 1) == two.resolve_asset());
                    match api_version(url, second.body(), release_key(state.pass.os, state.pass.arch)) {
                        Err(_) => {},
                        Ok(info) => {
                            install_ends(
                                two,
                                selected_asset(provider_name(provider), info),
                                host,
                                (steps - 2) as nat,
                            );
                        },
                    }
                },
            },
        }
    } else {
        install_ends(
            state,
            deferred_asset(provider_name(provider), state.pass.version),
            host,
            steps,
        );
    }
}

/// The download ends within ten replies.
pub proof fn download_ends(state: ExtensionView, host: Host, steps: nat)
    requires
        steps >= 10,
    ensures
        ends_with(
            run(state.begin_download().0, state.begin_download().1, host, steps),
            state,
            installed_binary(state, host),
            true,
            host,
        ),
{
    let (announcing, announce) = state.begin_download();
    run_continues(announcing, announce, host, 2, (steps - 2) as nat);
    reveal_with_fuel(run, 3);
    match state.version_lookup() {
        Err(_) => {},
        Ok(lookup) => match state.version((host.found)(lookup)) {
            Err(_) => {},
            Ok(info) => {
                let looked_up = announcing.at(Stage::Version);
                let versioned = ExtensionView {
                    pass: PassView {
                        version: info.version,
                        download_url: info.download_url,
                        found: Seq::empty(),
                        ..looked_up.pass
                    },
                    ..looked_up
                };
                assert(run(announcing, announce, host, 2) == versioned.resolve_asset());
                resolve_asset_ends(versioned, host, (steps - 2) as nat);
            },
        },
    }
}

/// Whether the cached path names a file.
pub open spec fn cache_holds(state: ExtensionView, host: Host) -> bool {
    state.cached_binary_path matches Some(path) && host.files.contains(path)
}

/// The look at the cached path, and the download where it names no file,
/// end within eleven replies.
pub proof fn cache_ends(state: ExtensionView, host: Host, steps: nat)
    requires
        steps >= 11,
    ensures
        ends_with(
            run(state.consult_cache().0, state.consult_cache().1, host, steps),
            state,
            if cache_holds(state, host) {
                Ok(state.cached_binary_path->0)
            } else {
                installed_binary(state, host)
            },
            !cache_holds(state, host),
            host,
        ),
{
    let (checking, check) = state.consult_cache();
    match state.cached_binary_path {
        Some(path) => {
            run_continues(checking, check, host, 1, (steps - 1) as nat);
            reveal_with_fuel(run, 2);
            if host.files.contains(path) {
                resolved_ends(checking, path, host, (steps - 1) as nat);
            } else {
                download_ends(checking, host, (steps - 1) as nat);
            }
        },
        None => {
            download_ends(state, host, steps);
        },
    }
}

/// The search on `PATH`, and what follows where it finds nothing, end
/// within twelve replies.
pub proof fn search_ends(state: ExtensionView, host: Host, steps: nat)
    requires
        steps >= 12,
    ensures
        ends_with(
            run(state.search_path().0, state.search_path().1, host, steps),
            state,
            match (host.on_path)(state.name()) {
                Some(path) => Ok(path),
                None => if cache_holds(state, host) {
                    Ok(state.cached_binary_path->0)
                } else {
                    installed_binary(state, host)
                },
            },
            (host.on_path)(state.name()) is None && !cache_holds(state, host),
            host,
        ),
{
    let (searching, search) = state.search_path();
    run_continues(searching, search, host, 1, (steps - 1) as nat);
    reveal_with_fuel(run, 2);
    match (host.on_path)(state.name()) {
        Some(path) => {
            resolved_ends(searching, path, host, (steps - 1) as nat);
        },
        None => {
            cache_ends(searching, host, (steps - 1) as nat);
        },
    }
}

/// Discovery, and the download where it finds nothing, end within thirteen
/// replies.
pub proof fn discovery_ends(state: ExtensionView, host: Host, steps: nat)
    requires
        steps >= 13,
    ensures
        ends_with(
            run(state.begin_discovery().0, state.begin_discovery().1, host, steps),
            state,
            resolved_binary(state, host),
            existing_binary(state.current_settings, state.cached_binary_path, host) is None,
            host,
        ),
{
    let (probing, probe) = state.begin_discovery();
    match state.current_settings.path {
        Some(path) => {
            run_continues(probing, probe, host, 1, (steps - 1) as nat);
            reveal_with_fuel(run, 2);
            if host.files.contains(path) {
                resolved_ends(probing, path, host, (steps - 1) as nat);
            } else {
                search_ends(probing, host, (steps - 1) as nat);
            }
        },
        None => {
            search_ends(state, host, steps);
        },
    }
}

/// A pass against a host comes to its outcome. Driven by the replies of
/// `host`, the controller hands out `Done` within thirteen replies, with
/// [`outcome`]. It is idle then, the cached path is that of
/// [`cached_after`], and the configuration in force is that of the settings
/// where they were acceptable, else the one before the pass.
pub proof fn pass_comes_to_outcome(
    state: ExtensionView,
    settings: Option<LspSettings>,
    os: Os,
    arch: Architecture,
    host: Host,
    steps: nat,
)
    requires
        steps >= 13,
    ensures
        ({
            let (first, request) = state.begin(settings, os, arch);
            let (last, done) = run(first, request, host, steps);
            &&& done == RequestView::Done(outcome(state, settings, os, arch, host))
            &&& last.pass.stage == Stage::Idle
            &&& last.cached_binary_path == cached_after(state, settings, os, arch, host)
            &&& last.current_settings == match state.configured(settings) {
                Ok(config) => config,
                Err(_) => state.current_settings,
            }
        }),
{
    match state.configured(settings) {
        Ok(config) => {
            discovery_ends(session(state, config, os, arch), host, steps);
        },
        Err(_) => {
            reveal_with_fuel(run, 1);
        },
    }
}

/// Discovery prefers the configured path: where the configuration names a
/// file, the pass ends with the command that starts it, whatever is on
/// `PATH` and whatever is cached, and the cached path stays as it was.
pub proof fn configured_file_is_the_binary(
    state: ExtensionView,
    settings: Option<LspSettings>,
    os: Os,
    arch: Architecture,
    host: Host,
    path: Seq<char>,
)
    requires
        state.configured(settings) matches Ok(config) && config.path == Some(path),
        host.files.contains(path),
    ensures
        outcome(state, settings, os, arch, host) matches Ok(command) && command.command == path,
        cached_after(state, settings, os, arch, host) == state.cached_binary_path,
{
}

/// A custom provider without a version source comes to a `Configuration`
/// error on every host.
pub proof fn custom_without_source_is_rejected(
    state: ExtensionView,
    settings: LspSettings,
    os: Os,
    arch: Architecture,
    host: Host,
)
    requires
        ZigToolingView::from_settings(settings).provider == Provider::Custom,
        ZigToolingView::from_settings(settings).version_source is None,
    ensures
        outcome(state, Some(settings), os, arch, host) is Err,
        outcome(state, Some(settings), os, arch, host)->Err_0 is Configuration,
{
}

} // verus!
