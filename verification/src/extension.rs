//! The controller: it reads the settings, looks for a binary that is
//! already there, installs one where none is, and ends with the command
//! that starts the language server.
//!
//! A pass begins with [`ZigExtension::language_server_command`] and goes on
//! with [`ZigExtension::advance`], one reply of the host at a time, until
//! the request handed out is [`Request::Done`].

use vstd::prelude::*;
use vstd::string::*;
use crate::error::{Error, ErrorView};
use crate::host::{
    Command, CommandView, Found, FoundView, GithubReleaseOptions, Lookup, LookupView, Reply,
    ReplyView, Request, RequestView,
};
use crate::platform::{
    archive_of, archive_type, platform_key, platform_key_of, Architecture,
    LanguageServerInstallationStatus, Os,
};
use crate::provider::version::{
    fetch_version, select_asset, version_in_release, version_view, VersionInfo, VersionInfoView,
};
use crate::provider::{
    provider_asset_info, provider_binary_name, provider_name, provider_repo, AssetInfo,
    AssetInfoView, AssetStep, AssetStepView,
};
use crate::settings::{clone_text, LspSettings, Provider, ZigTooling, ZigToolingView};
use crate::text::{chars_of, clone_strings, concat2, concat3, owned, push_char};

verus! {

/// What a pass waits for.
#[derive(Debug, Clone, Copy, PartialEq, Eq, Structural)]
pub enum Stage {
    /// No pass is under way.
    Idle,
    /// Whether the configured path names a file.
    ConfiguredPath,
    /// Where on `PATH` the binary is.
    OnPath,
    /// Whether the path installed earlier in this session still names a file.
    SessionCache,
    /// The status "checking for update" to be shown.
    CheckingForUpdate,
    /// The answer to the version lookup.
    Version,
    /// The answer to a lookup of the provider.
    Asset,
    /// Whether the binary of this version is installed already.
    Installed,
    /// The status "downloading" to be shown.
    Downloading,
    /// The install directory to be created.
    Directory,
    /// The archive to be downloaded and unpacked.
    Archive,
    /// The binary to be marked executable.
    Executable,
    /// The shell environment of the worktree.
    Environment,
}

/// The file name of a binary on an operating system: on Windows it ends
/// in `.exe`.
pub open spec fn binary_file(binary_name: Seq<char>, os: Os) -> Seq<char> {
    if os == Os::Windows {
        binary_name + ".exe"@
    } else {
        binary_name
    }
}

/// The path of `file` in `directory`. A file that begins with `/` is its own
/// path; a directory that is empty or ends in `/` takes no further `/`.
pub open spec fn joined_path(directory: Seq<char>, file: Seq<char>) -> Seq<char> {
    if file.len() > 0 && file[0] == '/' {
        file
    } else if directory.len() > 0 && directory.last() != '/' {
        directory.push('/') + file
    } else {
        directory + file
    }
}

/// Where and from what a version is installed.
pub struct InstallPlanView {
    /// The URL of the archive.
    pub download_url: Seq<char>,
    /// The install directory, named after the asset.
    pub directory: Seq<char>,
    /// The path of the binary in the install directory.
    pub binary_path: Seq<char>,
}

/// The plan for an asset: the archive is that of the asset where the
/// provider resolved one, else that of the resolved version, and a plan
/// without an archive is a failure; the directory is named after the asset.
pub open spec fn install_plan(
    asset: AssetInfoView,
    download_url: Seq<char>,
    binary_name: Seq<char>,
    os: Os,
) -> Result<InstallPlanView, ErrorView> {
    let url = match asset.url {
        Some(url) => url,
        None => download_url,
    };
    if url.len() == 0 {
        Err(ErrorView::DownloadFailed("No download URL available"@))
    } else {
        Ok(
            InstallPlanView {
                download_url: url,
                directory: asset.name,
                binary_path: joined_path(asset.name, binary_file(binary_name, os)),
            },
        )
    }
}

/// The failure of a custom provider that has no version source.
pub open spec fn source_required() -> ErrorView {
    ErrorView::Configuration {
        message: "Custom provider requires version_source"@,
        fix: "Please specify either a 'github' or 'api' version source in your configuration"@,
    }
}

/// The version that the latest release of the upstream repository offers
/// for the platform `key`.
pub open spec fn upstream_version(repo: Seq<char>, key: Seq<char>, found: FoundView) -> Result<
    VersionInfoView,
    ErrorView,
> {
    match found.release() {
        Err(error) => Err(
            ErrorView::LanguageServer("Failed to fetch release from "@ + repo + ": "@ + error),
        ),
        Ok(release) => match version_in_release(release, key) {
            Some(info) => Ok(info),
            None => Err(ErrorView::AssetNotFound("No asset found for "@ + key)),
        },
    }
}

/// The state of a pass.
pub struct PassView {
    pub stage: Stage,
    pub os: Os,
    pub arch: Architecture,
    /// The path under examination: the configured path, the cached path or
    /// the path of the binary to install.
    pub path: Seq<char>,
    /// The version resolved.
    pub version: Seq<char>,
    /// The URL of the archive.
    pub download_url: Seq<char>,
    /// The install directory.
    pub directory: Seq<char>,
    /// The answers to the provider's lookups so far.
    pub found: Seq<FoundView>,
}

impl PassView {
    /// A pass that has not begun.
    pub open spec fn fresh(os: Os, arch: Architecture) -> PassView {
        PassView {
            stage: Stage::Idle,
            os,
            arch,
            path: Seq::empty(),
            version: Seq::empty(),
            download_url: Seq::empty(),
            directory: Seq::empty(),
            found: Seq::empty(),
        }
    }
}

/// The state of the controller.
pub struct ExtensionView {
    /// The path of the binary installed in this session, if any.
    pub cached_binary_path: Option<Seq<char>>,
    /// The configuration in force.
    pub current_settings: ZigToolingView,
    /// The pass under way.
    pub pass: PassView,
}

impl ExtensionView {
    /// The state of a new controller: nothing is cached, the default
    /// configuration is in force and no pass is under way. The platform of
    /// the idle pass is of no consequence; it stands at Linux on x86-64.
    pub open spec fn initial() -> ExtensionView {
        ExtensionView {
            cached_binary_path: None,
            current_settings: ZigToolingView::initial(),
            pass: PassView::fresh(Os::Linux, Architecture::X8664),
        }
    }

    /// The canonical name of the provider in force.
    pub open spec fn name(self) -> Seq<char> {
        provider_name(self.current_settings.provider)
    }

    /// The platform key of the pass.
    pub open spec fn platform_key(self) -> Seq<char> {
        platform_key_of(self.pass.os, self.pass.arch)
    }

    /// The same state at another stage.
    pub open spec fn at(self, stage: Stage) -> ExtensionView {
        ExtensionView { pass: PassView { stage, ..self.pass }, ..self }
    }

    /// The same state with another path under examination.
    pub open spec fn examining(self, path: Seq<char>) -> ExtensionView {
        ExtensionView { pass: PassView { path, ..self.pass }, ..self }
    }

    /// The pass ends with `outcome`.
    pub open spec fn ended(self, outcome: Result<CommandView, ErrorView>) -> (
        ExtensionView,
        RequestView,
    ) {
        (self.at(Stage::Idle), RequestView::Done(outcome))
    }

    /// The command that starts the binary at `path`: with the configured
    /// arguments, none where none are configured.
    pub open spec fn command(self, path: Seq<char>, env: Seq<(Seq<char>, Seq<char>)>) -> CommandView {
        CommandView {
            command: path,
            args: match self.current_settings.args {
                Some(args) => args,
                None => Seq::empty(),
            },
            env,
        }
    }

    /// The binary is at `path`. On Windows the command is complete, with an
    /// empty environment; elsewhere it takes the shell environment of the
    /// worktree, which is asked for.
    pub open spec fn resolved(self, path: Seq<char>) -> (ExtensionView, RequestView) {
        if self.pass.os == Os::Windows {
            self.ended(Ok(self.command(path, Seq::empty())))
        } else {
            (self.examining(path).at(Stage::Environment), RequestView::ShellEnv)
        }
    }

    /// The search on `PATH` for the provider's binary.
    pub open spec fn search_path(self) -> (ExtensionView, RequestView) {
        (self.at(Stage::OnPath), RequestView::Which(self.name()))
    }

    /// The first step of discovery: the configured path where there is
    /// one, else the search on `PATH`.
    pub open spec fn begin_discovery(self) -> (ExtensionView, RequestView) {
        match self.current_settings.path {
            Some(path) => (
                self.examining(path).at(Stage::ConfiguredPath),
                RequestView::IsFile(path),
            ),
            None => self.search_path(),
        }
    }

    /// After `PATH`: the path installed earlier in this session where
    /// there is one, else the download.
    pub open spec fn consult_cache(self) -> (ExtensionView, RequestView) {
        match self.cached_binary_path {
            Some(path) => (self.examining(path).at(Stage::SessionCache), RequestView::IsFile(path)),
            None => self.begin_download(),
        }
    }

    /// Discovery, in strict order: the configured path if it names a file,
    /// else the binary on `PATH`, else the cached path if it still names a
    /// file, else the download. `None` where the reply answers no request
    /// of discovery.
    pub open spec fn find_existing_binary(self, reply: ReplyView) -> Option<
        (ExtensionView, RequestView),
    > {
        match (self.pass.stage, reply) {
            (Stage::ConfiguredPath, ReplyView::IsFile(is_file)) => Some(
                if is_file {
                    self.resolved(self.pass.path)
                } else {
                    self.search_path()
                },
            ),
            (Stage::OnPath, ReplyView::Which(found)) => Some(
                match found {
                    Some(path) => self.resolved(path),
                    None => self.consult_cache(),
                },
            ),
            (Stage::SessionCache, ReplyView::IsFile(is_file)) => Some(
                if is_file {
                    self.resolved(self.pass.path)
                } else {
                    self.begin_download()
                },
            ),
            _ => None,
        }
    }

    /// The first step of the download: the status is shown.
    pub open spec fn begin_download(self) -> (ExtensionView, RequestView) {
        (
            self.at(Stage::CheckingForUpdate),
            RequestView::SetStatus(LanguageServerInstallationStatus::CheckingForUpdate),
        )
    }

    /// The lookup that resolves the version: that of the configured source
    /// for a custom provider, the latest release with assets of the upstream
    /// repository, pre-releases left out, for the others.
    pub open spec fn version_lookup(self) -> Result<LookupView, ErrorView> {
        match self.current_settings.provider {
            Provider::Custom => match self.current_settings.version_source {
                Some(source) => Ok(source.lookup()),
                None => Err(source_required()),
            },
            provider => Ok(
                LookupView::LatestGithubRelease {
                    repo: provider_repo(provider),
                    options: GithubReleaseOptions { require_assets: true, pre_release: false },
                },
            ),
        }
    }

    /// The version that the answer to the version lookup gives.
    pub open spec fn version(self, found: FoundView) -> Result<VersionInfoView, ErrorView> {
        match self.current_settings.provider {
            Provider::Custom => match self.current_settings.version_source {
                Some(source) => source.version(self.platform_key(), found),
                None => Err(source_required()),
            },
            provider => upstream_version(provider_repo(provider), self.platform_key(), found),
        }
    }

    /// The next step of the provider's asset resolution: a failure ends the
    /// pass, a lookup is handed on, an asset is installed.
    pub open spec fn resolve_asset(self) -> (ExtensionView, RequestView) {
        match provider_asset_info(
            self.current_settings.provider,
            self.name(),
            self.pass.os,
            self.pass.arch,
            self.pass.version,
            self.pass.found,
        ) {
            Err(error) => self.ended(Err(error)),
            Ok(AssetStepView::Lookup(lookup)) => (
                self.at(Stage::Asset),
                RequestView::Lookup(lookup),
            ),
            Ok(AssetStepView::Ready(asset)) => self.install(asset),
        }
    }

    /// The install of an asset begins with the question whether its binary
    /// is there already.
    pub open spec fn install(self, asset: AssetInfoView) -> (ExtensionView, RequestView) {
        match install_plan(
            asset,
            self.pass.download_url,
            provider_binary_name(self.current_settings.provider, self.name(), self.platform_key()),
            self.pass.os,
        ) {
            Err(error) => self.ended(Err(error)),
            Ok(plan) => (
                ExtensionView {
                    pass: PassView {
                        stage: Stage::Installed,
                        path: plan.binary_path,
                        download_url: plan.download_url,
                        directory: plan.directory,
                        ..self.pass
                    },
                    ..self
                },
                RequestView::IsFile(plan.binary_path),
            ),
        }
    }

    /// The binary is installed: its path is kept for the session, and the
    /// binary is resolved.
    pub open spec fn installed(self) -> (ExtensionView, RequestView) {
        ExtensionView { cached_binary_path: Some(self.pass.path), ..self }.resolved(self.pass.path)
    }

    /// The download: the version is looked up and the asset resolved; unless
    /// the binary is there already, the directory is created, the archive
    /// downloaded and unpacked, and the binary marked executable. The first
    /// failure ends the pass. `None` where the reply answers no request of
    /// the download.
    pub open spec fn download_binary(self, reply: ReplyView) -> Option<
        (ExtensionView, RequestView),
    > {
        match (self.pass.stage, reply) {
            (Stage::CheckingForUpdate, ReplyView::StatusSet) => Some(
                match self.version_lookup() {
                    Ok(lookup) => (self.at(Stage::Version), RequestView::Lookup(lookup)),
                    Err(error) => self.ended(Err(error)),
                },
            ),
            (Stage::Version, ReplyView::Found(found)) => Some(
                match self.version(found) {
                    Ok(info) => ExtensionView {
                        pass: PassView {
                            version: info.version,
                            download_url: info.download_url,
                            found: Seq::empty(),
                            ..self.pass
                        },
                        ..self
                    }.resolve_asset(),
                    Err(error) => self.ended(Err(error)),
                },
            ),
            (Stage::Asset, ReplyView::Found(found)) => Some(
                ExtensionView {
                    pass: PassView { found: self.pass.found.push(found), ..self.pass },
                    ..self
                }.resolve_asset(),
            ),
            (Stage::Installed, ReplyView::IsFile(is_file)) => Some(
                if is_file {
                    self.installed()
                } else {
                    (
                        self.at(Stage::Downloading),
                        RequestView::SetStatus(LanguageServerInstallationStatus::Downloading),
                    )
                },
            ),
            (Stage::Downloading, ReplyView::StatusSet) => Some(
                (self.at(Stage::Directory), RequestView::CreateDirectory(self.pass.directory)),
            ),
            (Stage::Directory, ReplyView::DirectoryCreated(outcome)) => Some(
                match outcome {
                    Ok(_) => (
                        self.at(Stage::Archive),
                        RequestView::DownloadFile {
                            url: self.pass.download_url,
                            directory: self.pass.directory,
                            file_type: archive_of(self.pass.os),
                        },
                    ),
                    Err(error) => self.ended(
                        Err(
                            ErrorView::InstallationFailed(
                                "Failed to create directory "@ + self.pass.directory + ": "@ + error,
                            ),
                        ),
                    ),
                },
            ),
            (Stage::Archive, ReplyView::Downloaded(outcome)) => Some(
                match outcome {
                    Ok(_) => (
                        self.at(Stage::Executable),
                        RequestView::MakeExecutable(self.pass.path),
                    ),
                    Err(error) => self.ended(
                        Err(
                            ErrorView::DownloadFailed(
                                "Failed to download from "@ + self.pass.download_url + ": "@ + error,
                            ),
                        ),
                    ),
                },
            ),
            (Stage::Executable, ReplyView::MadeExecutable(outcome)) => Some(
                match outcome {
                    Ok(_) => self.installed(),
                    Err(error) => self.ended(Err(ErrorView::FileSystem(error))),
                },
            ),
            _ => None,
        }
    }

    /// The last step: the command takes the shell environment handed over.
    /// `None` where the reply is no environment or none was asked for.
    pub open spec fn launch(self, reply: ReplyView) -> Option<(ExtensionView, RequestView)> {
        match (self.pass.stage, reply) {
            (Stage::Environment, ReplyView::ShellEnv(env)) => Some(
                self.ended(Ok(self.command(self.pass.path, env))),
            ),
            _ => None,
        }
    }

    /// The state and the request after `reply`; `None` where the reply does
    /// not answer the request that the pass waits for, or no pass is under
    /// way.
    pub open spec fn step(self, reply: ReplyView) -> Option<(ExtensionView, RequestView)> {
        match self.pass.stage {
            Stage::Idle => None,
            Stage::ConfiguredPath | Stage::OnPath | Stage::SessionCache => self.find_existing_binary(
                reply,
            ),
            Stage::Environment => self.launch(reply),
            _ => self.download_binary(reply),
        }
    }

    /// The configuration after the host's settings were looked up. Settings
    /// that were found replace the configuration if they are acceptable and
    /// are a failure if not; without settings the configuration stays.
    pub open spec fn configured(self, settings: Option<LspSettings>) -> Result<
        ZigToolingView,
        ErrorView,
    > {
        match settings {
            Some(settings) => {
                let config = ZigToolingView::from_settings(settings);
                if config.acceptable() {
                    Ok(config)
                } else {
                    Err(config.rejection())
                }
            },
            None => Ok(self.current_settings),
        }
    }

    /// The state and the first request of a pass on the platform `os`,
    /// `arch`. A configuration that is not acceptable ends the pass at
    /// once, and the configuration in force stays.
    pub open spec fn begin(self, settings: Option<LspSettings>, os: Os, arch: Architecture) -> (
        ExtensionView,
        RequestView,
    ) {
        let cleared = ExtensionView { pass: PassView::fresh(os, arch), ..self };
        match self.configured(settings) {
            Ok(config) => ExtensionView { current_settings: config, ..cleared }.begin_discovery(),
            Err(error) => cleared.ended(Err(error)),
        }
    }
}

/// Whether a transition of the controller is the one stated: from `before`
/// to `after` with `request`, or none, with the state unchanged.
pub open spec fn transition(
    stated: Option<(ExtensionView, RequestView)>,
    before: ExtensionView,
    after: ExtensionView,
    request: Option<Request>,
) -> bool {
    match request {
        Some(request) => stated == Some((after, request@)),
        None => stated is None && after == before,
    }
}

#[derive(Debug)]
struct Pass {
    stage: Stage,
    os: Os,
    arch: Architecture,
    path: String,
    version: String,
    download_url: String,
    directory: String,
    found: Vec<Found>,
}

impl View for Pass {
    type V = PassView;

    closed spec fn view(&self) -> PassView {
        PassView {
            stage: self.stage,
            os: self.os,
            arch: self.arch,
            path: self.path@,
            version: self.version@,
            download_url: self.download_url@,
            directory: self.directory@,
            found: self.found.deep_view(),
        }
    }
}

/// The controller of one extension instance.
#[derive(Debug)]
pub struct ZigExtension {
    cached_binary_path: Option<String>,
    current_settings: ZigTooling,
    pass: Pass,
}

impl View for ZigExtension {
    type V = ExtensionView;

    closed spec fn view(&self) -> ExtensionView {
        ExtensionView {
            cached_binary_path: self.cached_binary_path.deep_view(),
            current_settings: self.current_settings@,
            pass: self.pass@,
        }
    }
}

impl Default for ZigExtension {
    fn default() -> (extension: ZigExtension)
        ensures
            extension@ == ExtensionView::initial(),
    {
        ZigExtension::new()
    }
}

/// The path of `file` in `directory`.
pub fn join_path(directory: &str, file: &str) -> (path: String)
    ensures
        path@ == joined_path(directory@, file@),
{
    let name = chars_of(file);
    if name.len() > 0 && name[0] == '/' {
        return owned(file);
    }
    let parent = chars_of(directory);
    let mut path = owned(directory);
    if parent.len() > 0 && parent[parent.len() - 1] != '/' {
        push_char(&mut path, '/');
    }
    path.append(file);
    path
}

impl ZigExtension {
    /// A controller with the default configuration and nothing installed.
    pub fn new() -> (extension: ZigExtension)
        ensures
            extension@ == ExtensionView::initial(),
    {
        let found: Vec<Found> = Vec::new();
        assert(found.deep_view() =~= Seq::empty());
        ZigExtension {
            cached_binary_path: None,
            current_settings: ZigTooling {
                provider: Provider::Zls,
                path: None,
                args: None,
                version_source: None,
            },
            pass: Pass {
                stage: Stage::Idle,
                os: Os::Linux,
                arch: Architecture::X8664,
                path: String::new(),
                version: String::new(),
                download_url: String::new(),
                directory: String::new(),
                found,
            },
        }
    }

    /// The path of the binary installed in this session, if any.
    pub fn cached_binary_path(&self) -> (path: Option<&str>)
        ensures
            path.deep_view() == self@.cached_binary_path,
    {
        match &self.cached_binary_path {
            Some(path) => Some(path.as_str()),
            None => None,
        }
    }

    /// The configuration in force.
    pub fn current_settings(&self) -> (settings: &ZigTooling)
        ensures
            settings@ == self@.current_settings,
    {
        &self.current_settings
    }

    /// What the pass waits for.
    pub fn stage(&self) -> (stage: Stage)
        ensures
            stage == self@.pass.stage,
    {
        self.pass.stage
    }

    fn ended(&mut self, outcome: Result<Command, Error>) -> (request: Request)
        ensures
            final(self)@ == old(self)@.at(Stage::Idle),
            request@ == RequestView::Done(
                match outcome {
                    Ok(command) => Ok(command@),
                    Err(error) => Err(error@),
                },
            ),
    {
        self.pass.stage = Stage::Idle;
        Request::Done(outcome)
    }

    fn resolved(&mut self, path: String) -> (request: Request)
        ensures
            (final(self)@, request@) == old(self)@.resolved(path@),
    {
        match self.pass.os {
            Os::Windows => {
                let command = Command {
                    command: path,
                    args: match &self.current_settings.args {
                        Some(args) => clone_strings(args),
                        None => Vec::new(),
                    },
                    env: Vec::new(),
                };
                assert(command.env.deep_view() =~= Seq::empty());
                assert(command.args.deep_view() =~= old(self)@.command(path@, Seq::empty()).args);
                self.ended(Ok(command))
            },
            _ => {
                self.pass.path = path;
                self.pass.stage = Stage::Environment;
                Request::ShellEnv
            },
        }
    }

    fn search_path(&mut self) -> (request: Request)
        ensures
            (final(self)@, request@) == old(self)@.search_path(),
    {
        self.pass.stage = Stage::OnPath;
        Request::Which(owned(self.current_settings.provider.config().0))
    }

    fn begin_download(&mut self) -> (request: Request)
        ensures
            (final(self)@, request@) == old(self)@.begin_download(),
    {
        self.pass.stage = Stage::CheckingForUpdate;
        Request::SetStatus(LanguageServerInstallationStatus::CheckingForUpdate)
    }

    fn consult_cache(&mut self) -> (request: Request)
        ensures
            (final(self)@, request@) == old(self)@.consult_cache(),
    {
        match clone_text(&self.cached_binary_path) {
            Some(path) => {
                self.pass.path = path.clone();
                self.pass.stage = Stage::SessionCache;
                Request::IsFile(path)
            },
            None => self.begin_download(),
        }
    }

    /// Discovery of a binary that is already there: takes the host's reply
    /// to a request of discovery and hands out the next request.
    pub fn find_existing_binary(&mut self, reply: Reply) -> (request: Option<Request>)
        ensures
            transition(old(self)@.find_existing_binary(reply@), old(self)@, final(self)@, request),
    {
        match (self.pass.stage, reply) {
            (Stage::ConfiguredPath, Reply::IsFile(is_file)) => {
                if is_file {
                    let path = self.pass.path.clone();
                    Some(self.resolved(path))
                } else {
                    Some(self.search_path())
                }
            },
            (Stage::OnPath, Reply::Which(found)) => {
                match found {
                    Some(path) => Some(self.resolved(path)),
                    None => Some(self.consult_cache()),
                }
            },
            (Stage::SessionCache, Reply::IsFile(is_file)) => {
                if is_file {
                    let path = self.pass.path.clone();
                    Some(self.resolved(path))
                } else {
                    Some(self.begin_download())
                }
            },
            _ => None,
        }
    }

    fn version_lookup(&self) -> (lookup: Result<Lookup, Error>)
        ensures
            match lookup {
                Ok(lookup) => self@.version_lookup() == Ok::<LookupView, ErrorView>(lookup@),
                Err(error) => self@.version_lookup() == Err::<LookupView, ErrorView>(error@),
            },
    {
        match self.current_settings.provider {
            Provider::Custom => match &self.current_settings.version_source {
                Some(source) => Ok(source.lookup()),
                None => Err(source_is_required()),
            },
            provider => Ok(
                Lookup::LatestGithubRelease {
                    repo: owned(provider.config().1),
                    options: GithubReleaseOptions { require_assets: true, pre_release: false },
                },
            ),
        }
    }

    fn version(&self, found: &Found) -> (info: Result<VersionInfo, Error>)
        ensures
            version_view(info) == self@.version(found@),
    {
        let key = platform_key(self.pass.os, self.pass.arch);
        match self.current_settings.provider {
            Provider::Custom => match &self.current_settings.version_source {
                Some(source) => fetch_version(source, key.as_str(), found),
                None => Err(source_is_required()),
            },
            provider => {
                let repo = provider.config().1;
                match found {
                    Found::Release(Ok(release)) => match select_asset(release, key.as_str()) {
                        Some(info) => Ok(info),
                        None => Err(
                            Error::AssetNotFound(concat2("No asset found for ", key.as_str())),
                        ),
                    },
                    Found::Release(Err(error)) => Err(release_failed(repo, error.as_str())),
                    Found::Body(_) => Err(release_failed(repo, "the host returned no release")),
                }
            },
        }
    }

    fn install(&mut self, asset: AssetInfo) -> (request: Request)
        ensures
            (final(self)@, request@) == old(self)@.install(asset@),
    {
        let url = match asset.url {
            Some(url) => url,
            None => self.pass.download_url.clone(),
        };
        if url.as_str().is_empty() {
            return self.ended(Err(Error::DownloadFailed(owned("No download URL available"))));
        }
        let provider = self.current_settings.provider;
        let key = platform_key(self.pass.os, self.pass.arch);
        let binary_name = provider.binary_name(provider.config().0, key.as_str());
        let file = match self.pass.os {
            Os::Windows => concat2(binary_name.as_str(), ".exe"),
            _ => binary_name,
        };
        let binary_path = join_path(asset.name.as_str(), file.as_str());
        self.pass.stage = Stage::Installed;
        self.pass.path = binary_path.clone();
        self.pass.download_url = url;
        self.pass.directory = asset.name;
        Request::IsFile(binary_path)
    }

    fn resolve_asset(&mut self) -> (request: Request)
        ensures
            (final(self)@, request@) == old(self)@.resolve_asset(),
    {
        let provider = self.current_settings.provider;
        let step = provider.asset_info(
            provider.config().0,
            self.pass.os,
            self.pass.arch,
            self.pass.version.as_str(),
            &self.pass.found,
        );
        match step {
            Err(error) => self.ended(Err(error)),
            Ok(AssetStep::Lookup(lookup)) => {
                self.pass.stage = Stage::Asset;
                Request::Lookup(lookup)
            },
            Ok(AssetStep::Ready(asset)) => self.install(asset),
        }
    }

    fn installed(&mut self) -> (request: Request)
        ensures
            (final(self)@, request@) == old(self)@.installed(),
    {
        self.cached_binary_path = Some(self.pass.path.clone());
        let path = self.pass.path.clone();
        self.resolved(path)
    }

    /// The download and install of the binary: takes the host's reply to a
    /// request of the download and hands out the next request.
    pub fn download_binary(&mut self, reply: Reply) -> (request: Option<Request>)
        ensures
            transition(old(self)@.download_binary(reply@), old(self)@, final(self)@, request),
    {
        match (self.pass.stage, reply) {
            (Stage::CheckingForUpdate, Reply::StatusSet) => {
                match self.version_lookup() {
                    Ok(lookup) => {
                        self.pass.stage = Stage::Version;
                        Some(Request::Lookup(lookup))
                    },
                    Err(error) => Some(self.ended(Err(error))),
                }
            },
            (Stage::Version, Reply::Found(found)) => {
                match self.version(&found) {
                    Ok(info) => {
                        self.pass.version = info.version;
                        self.pass.download_url = info.download_url;
                        self.pass.found = Vec::new();
                        assert(self.pass.found.deep_view() =~= Seq::empty());
                        Some(self.resolve_asset())
                    },
                    Err(error) => Some(self.ended(Err(error))),
                }
            },
            (Stage::Asset, Reply::Found(found)) => {
                self.pass.found.push(found);
                assert(self.pass.found.deep_view() =~= old(self).pass.found.deep_view().push(
                    found@,
                ));
                Some(self.resolve_asset())
            },
            (Stage::Installed, Reply::IsFile(is_file)) => {
                if is_file {
                    Some(self.installed())
                } else {
                    self.pass.stage = Stage::Downloading;
                    Some(Request::SetStatus(LanguageServerInstallationStatus::Downloading))
                }
            },
            (Stage::Downloading, Reply::StatusSet) => {
                self.pass.stage = Stage::Directory;
                Some(Request::CreateDirectory(self.pass.directory.clone()))
            },
            (Stage::Directory, Reply::DirectoryCreated(outcome)) => {
                match outcome {
                    Ok(_) => {
                        self.pass.stage = Stage::Archive;
                        Some(
                            Request::DownloadFile {
                                url: self.pass.download_url.clone(),
                                directory: self.pass.directory.clone(),
                                file_type: archive_type(self.pass.os),
                            },
                        )
                    },
                    Err(error) => {
                        let head = concat3(
                            "Failed to create directory ",
                            self.pass.directory.as_str(),
                            ": ",
                        );
                        let detail = concat2(head.as_str(), error.as_str());
                        Some(self.ended(Err(Error::InstallationFailed(detail))))
                    },
                }
            },
            (Stage::Archive, Reply::Downloaded(outcome)) => {
                match outcome {
                    Ok(_) => {
                        self.pass.stage = Stage::Executable;
                        Some(Request::MakeExecutable(self.pass.path.clone()))
                    },
                    Err(error) => {
                        let head = concat3(
                            "Failed to download from ",
                            self.pass.download_url.as_str(),
                            ": ",
                        );
                        let detail = concat2(head.as_str(), error.as_str());
                        Some(self.ended(Err(Error::DownloadFailed(detail))))
                    },
                }
            },
            (Stage::Executable, Reply::MadeExecutable(outcome)) => {
                match outcome {
                    Ok(_) => Some(self.installed()),
                    Err(error) => Some(self.ended(Err(Error::FileSystem(error)))),
                }
            },
            _ => None,
        }
    }

    /// Begins a pass that ends with the command to start the language
    /// server, and hands out its first request. `settings` are the host's
    /// settings for the language server, `None` where the host could not
    /// supply them; `os` and `arch` are the platform of the host.
    pub fn language_server_command(
        &mut self,
        settings: Option<LspSettings>,
        os: Os,
        arch: Architecture,
    ) -> (request: Request)
        ensures
            (final(self)@, request@) == old(self)@.begin(settings, os, arch),
    {
        self.pass = Pass {
            stage: Stage::Idle,
            os,
            arch,
            path: String::new(),
            version: String::new(),
            download_url: String::new(),
            directory: String::new(),
            found: Vec::new(),
        };
        assert(self.pass.found.deep_view() =~= Seq::empty());
        match &settings {
            Some(settings) => {
                let config = ZigTooling::from_settings(settings);
                match config.validate() {
                    Ok(_) => { self.current_settings = config; },
                    Err(error) => { return self.ended(Err(error)); },
                }
            },
            None => {},
        }
        match clone_text(&self.current_settings.path) {
            Some(path) => {
                self.pass.path = path.clone();
                self.pass.stage = Stage::ConfiguredPath;
                Request::IsFile(path)
            },
            None => self.search_path(),
        }
    }

    /// Takes the host's reply to the request handed out last and hands out
    /// the next; `None`, with nothing changed, where the reply does not
    /// answer that request or no pass is under way.
    pub fn advance(&mut self, reply: Reply) -> (request: Option<Request>)
        ensures
            transition(old(self)@.step(reply@), old(self)@, final(self)@, request),
    {
        match self.pass.stage {
            Stage::Idle => None,
            Stage::ConfiguredPath | Stage::OnPath | Stage::SessionCache => self.find_existing_binary(
                reply,
            ),
            Stage::Environment => match reply {
                Reply::ShellEnv(env) => {
                    let command = Command {
                        command: self.pass.path.clone(),
                        args: match &self.current_settings.args {
                            Some(args) => clone_strings(args),
                            None => Vec::new(),
                        },
                        env,
                    };
                    assert(command.args.deep_view() =~= old(self)@.command(
                        old(self)@.pass.path,
                        env.deep_view(),
                    ).args);
                    Some(self.ended(Ok(command)))
                },
                _ => None,
            },
            _ => self.download_binary(reply),
        }
    }
}

fn source_is_required() -> (error: Error)
    ensures
        error@ == source_required(),
{
    Error::Configuration {
        message: owned("Custom provider requires version_source"),
        fix: owned("Please specify either a 'github' or 'api' version source in your configuration"),
    }
}

fn release_failed(repo: &str, error: &str) -> (failure: Error)
    ensures
        failure@ == ErrorView::LanguageServer("Failed to fetch release from "@ + repo@ + ": "@ + error@),
{
    let head = concat3("Failed to fetch release from ", repo, ": ");
    Error::LanguageServer(concat2(head.as_str(), error))
}

/// A pass forgets the pass before it: its beginning depends on the cached
/// path and the configuration in force alone.
pub proof fn begin_forgets_pass(
    one: ExtensionView,
    other: ExtensionView,
    settings: Option<LspSettings>,
    os: Os,
    arch: Architecture,
)
    requires
        one.cached_binary_path == other.cached_binary_path,
        one.current_settings == other.current_settings,
    ensures
        one.begin(settings, os, arch) == other.begin(settings, os, arch),
{
}

/// Settings that are not acceptable end the pass before the host is asked
/// for anything: the first request is `Done` with the rejection, and
/// neither the configuration in force nor the cached path changes.
pub proof fn rejected_settings_end_the_pass(
    state: ExtensionView,
    settings: LspSettings,
    os: Os,
    arch: Architecture,
)
    requires
        !ZigToolingView::from_settings(settings).acceptable(),
    ensures
        state.begin(Some(settings), os, arch).1 == RequestView::Done(
            Err(ZigToolingView::from_settings(settings).rejection()),
        ),
        state.begin(Some(settings), os, arch).0.current_settings == state.current_settings,
        state.begin(Some(settings), os, arch).0.cached_binary_path == state.cached_binary_path,
        state.begin(Some(settings), os, arch).0.pass.stage == Stage::Idle,
{
}

/// A custom provider without a version source fails with a
/// `Configuration` error as the first request of the pass: no lookup, and
/// no other operation of the host, comes before it.
pub proof fn custom_without_source_fails_first(
    state: ExtensionView,
    settings: LspSettings,
    os: Os,
    arch: Architecture,
)
    requires
        ZigToolingView::from_settings(settings).provider == Provider::Custom,
        ZigToolingView::from_settings(settings).version_source is None,
    ensures
        state.begin(Some(settings), os, arch).1 == RequestView::Done(
            Err(
                ErrorView::Configuration {
                    message: "Custom provider requires version_source configuration"@,
                    fix: "Please add a version_source configuration with either 'github' or 'api' type"@,
                },
            ),
        ),
{
}

/// Discovery prefers the configured path. Where the configuration names a
/// path, the pass begins by asking whether it names a file; if it does, the
/// command starts that path, whatever is on `PATH` and whatever is cached:
/// neither is asked for. On Windows the command follows at once, elsewhere
/// after the shell environment `env` was handed over.
pub proof fn configured_path_is_preferred(
    state: ExtensionView,
    settings: Option<LspSettings>,
    os: Os,
    arch: Architecture,
    path: Seq<char>,
    env: Seq<(Seq<char>, Seq<char>)>,
)
    requires
        state.configured(settings) matches Ok(config) && config.path == Some(path),
    ensures
        ({
            let (probing, probe) = state.begin(settings, os, arch);
            let answered = probing.step(ReplyView::IsFile(true));
            &&& probe == RequestView::IsFile(path)
            &&& answered matches Some((found, next)) && if os == Os::Windows {
                next == RequestView::Done(Ok(found.command(path, Seq::empty())))
            } else {
                &&& next == RequestView::ShellEnv
                &&& found.step(ReplyView::ShellEnv(env)) matches Some((_, last)) && last
                    == RequestView::Done(Ok(found.command(path, env)))
            }
        }),
{
}

/// Without a configured file, a binary on `PATH` is preferred to the cached
/// path and to a download: once `PATH` yields `path`, the command starts it.
pub proof fn path_search_is_preferred_to_cache(
    state: ExtensionView,
    path: Seq<char>,
    env: Seq<(Seq<char>, Seq<char>)>,
)
    requires
        state.pass.stage == Stage::OnPath,
    ensures
        state.step(ReplyView::Which(Some(path))) matches Some((found, next)) && if state.pass.os
            == Os::Windows {
            next == RequestView::Done(Ok(found.command(path, Seq::empty())))
        } else {
            &&& next == RequestView::ShellEnv
            &&& found.step(ReplyView::ShellEnv(env)) matches Some((_, last)) && last
                == RequestView::Done(Ok(found.command(path, env)))
        },
{
}

/// A pass is over exactly when `Done` is handed out: after `Done` the
/// controller is idle, after every other request it waits for the reply.
pub proof fn done_ends_the_pass(state: ExtensionView, reply: ReplyView)
    ensures
        state.step(reply) matches Some((next, request)) ==> (request is Done <==> next.pass.stage
            == Stage::Idle),
{
}

/// The beginning of a pass is `Done` exactly when the controller stays idle.
pub proof fn done_ends_the_pass_at_once(
    state: ExtensionView,
    settings: Option<LspSettings>,
    os: Os,
    arch: Architecture,
)
    ensures
        state.begin(settings, os, arch).1 is Done <==> state.begin(settings, os, arch).0.pass.stage
            == Stage::Idle,
{
}

/// An install that succeeds is remembered: once the binary is marked
/// executable, or found installed already, its path is the cached path of
/// the session and the path that the command starts.
pub proof fn install_is_cached(state: ExtensionView, reply: ReplyView)
    requires
        (state.pass.stage == Stage::Executable && reply == ReplyView::MadeExecutable(Ok(())))
            || (state.pass.stage == Stage::Installed && reply == ReplyView::IsFile(true)),
    ensures
        state.step(reply) matches Some((next, request)) && next.cached_binary_path == Some(
            state.pass.path,
        ) && (request == RequestView::ShellEnv || request == RequestView::Done(
            Ok(next.command(state.pass.path, Seq::empty())),
        )),
{
}

/// Nothing but an install changes the cached path, and nothing but the
/// beginning of a pass changes the configuration.
pub proof fn step_keeps_settings(state: ExtensionView, reply: ReplyView)
    ensures
        state.step(reply) matches Some((next, _)) ==> {
            &&& next.current_settings == state.current_settings
            &&& next.pass.os == state.pass.os
            &&& next.pass.arch == state.pass.arch
            &&& next.cached_binary_path == state.cached_binary_path || next.cached_binary_path
                == Some(state.pass.path)
        },
{
}

} // verus!
