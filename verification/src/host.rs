//! What the library asks of the host, and what the host answers.
//!
//! The library performs no operation of the host itself. It hands out a
//! [`Request`], the caller carries it out and hands back the [`Reply`].

use vstd::prelude::*;
use crate::error::{Error, ErrorView};
use crate::platform::{DownloadedFileType, LanguageServerInstallationStatus};
use crate::util::response_view;

verus! {

/// An asset of a GitHub release.
#[derive(Debug, Clone, PartialEq, Eq)]
pub struct GithubReleaseAsset {
    pub name: String,
    pub download_url: String,
}

/// A [`GithubReleaseAsset`] with its texts as character sequences.
pub struct GithubReleaseAssetView {
    pub name: Seq<char>,
    pub download_url: Seq<char>,
}

impl View for GithubReleaseAsset {
    type V = GithubReleaseAssetView;

    open spec fn view(&self) -> GithubReleaseAssetView {
        GithubReleaseAssetView { name: self.name@, download_url: self.download_url@ }
    }
}

impl DeepView for GithubReleaseAsset {
    type V = GithubReleaseAssetView;

    open spec fn deep_view(&self) -> GithubReleaseAssetView {
        self@
    }
}

/// A GitHub release: its version and its assets in the order of the listing.
#[derive(Debug, Clone, PartialEq, Eq)]
pub struct GithubRelease {
    pub version: String,
    pub assets: Vec<GithubReleaseAsset>,
}

/// A [`GithubRelease`] with its texts as character sequences.
pub struct GithubReleaseView {
    pub version: Seq<char>,
    pub assets: Seq<GithubReleaseAssetView>,
}

impl View for GithubRelease {
    type V = GithubReleaseView;

    open spec fn view(&self) -> GithubReleaseView {
        GithubReleaseView { version: self.version@, assets: self.assets.deep_view() }
    }
}

/// Which releases a lookup accepts.
#[derive(Debug, Clone, Copy, PartialEq, Eq, Structural)]
pub struct GithubReleaseOptions {
    /// Whether a release must have assets.
    pub require_assets: bool,
    /// Whether a pre-release is accepted.
    pub pre_release: bool,
}

/// A question that the host answers from the network.
#[derive(Debug, Clone, PartialEq, Eq)]
pub enum Lookup {
    /// The latest release of the repository `owner/repo`.
    LatestGithubRelease { repo: String, options: GithubReleaseOptions },
    /// The body of the response to a GET request for `url`.
    Fetch { url: String },
}

/// A [`Lookup`] with its texts as character sequences.
pub enum LookupView {
    LatestGithubRelease { repo: Seq<char>, options: GithubReleaseOptions },
    Fetch { url: Seq<char> },
}

impl View for Lookup {
    type V = LookupView;

    open spec fn view(&self) -> LookupView {
        match self {
            Lookup::LatestGithubRelease { repo, options } => LookupView::LatestGithubRelease {
                repo: repo@,
                options: *options,
            },
            Lookup::Fetch { url } => LookupView::Fetch { url: url@ },
        }
    }
}

/// The host's answer to a [`Lookup`]: what was found, or the host's words
/// for why nothing was.
#[derive(Debug, PartialEq, Eq)]
pub enum Found {
    /// The answer to [`Lookup::LatestGithubRelease`].
    Release(Result<GithubRelease, String>),
    /// The answer to [`Lookup::Fetch`].
    Body(Result<Vec<u8>, String>),
}

/// A [`Found`] with its texts as character sequences.
pub enum FoundView {
    Release(Result<GithubReleaseView, Seq<char>>),
    Body(Result<Seq<u8>, Seq<char>>),
}

impl View for Found {
    type V = FoundView;

    open spec fn view(&self) -> FoundView {
        match self {
            Found::Release(Ok(release)) => FoundView::Release(Ok(release@)),
            Found::Release(Err(error)) => FoundView::Release(Err(error@)),
            Found::Body(response) => FoundView::Body(response_view(*response)),
        }
    }
}

impl DeepView for Found {
    type V = FoundView;

    open spec fn deep_view(&self) -> FoundView {
        self@
    }
}

impl FoundView {
    /// The answer read as that to a release lookup. An answer of the other
    /// kind is a lookup that failed.
    pub open spec fn release(self) -> Result<GithubReleaseView, Seq<char>> {
        match self {
            FoundView::Release(release) => release,
            FoundView::Body(_) => Err("the host returned no release"@),
        }
    }

    /// The answer read as that to a fetch. An answer of the other kind is a
    /// fetch that failed.
    pub open spec fn body(self) -> Result<Seq<u8>, Seq<char>> {
        match self {
            FoundView::Body(response) => response,
            FoundView::Release(_) => Err("the host returned no response body"@),
        }
    }
}

/// The command that starts the language server.
#[derive(Debug, Clone, PartialEq, Eq)]
pub struct Command {
    pub command: String,
    pub args: Vec<String>,
    pub env: Vec<(String, String)>,
}

/// A [`Command`] with its texts as character sequences.
pub struct CommandView {
    pub command: Seq<char>,
    pub args: Seq<Seq<char>>,
    pub env: Seq<(Seq<char>, Seq<char>)>,
}

impl View for Command {
    type V = CommandView;

    open spec fn view(&self) -> CommandView {
        CommandView {
            command: self.command@,
            args: self.args.deep_view(),
            env: self.env.deep_view(),
        }
    }
}

/// What the library asks the host to do next.
#[derive(Debug, PartialEq, Eq)]
pub enum Request {
    /// Does this path name an existing regular file?
    IsFile(String),
    /// Where on the worktree's `PATH` is a binary of this name?
    Which(String),
    /// Show this installation status.
    SetStatus(LanguageServerInstallationStatus),
    /// Answer this lookup.
    Lookup(Lookup),
    /// Create this directory and its parents.
    CreateDirectory(String),
    /// Download the archive at `url` and unpack it into `directory`.
    DownloadFile { url: String, directory: String, file_type: DownloadedFileType },
    /// Mark this file executable.
    MakeExecutable(String),
    /// Hand over the shell environment of the worktree.
    ShellEnv,
    /// Nothing: the pass has ended with this outcome.
    Done(Result<Command, Error>),
}

/// A [`Request`] with its texts as character sequences.
pub enum RequestView {
    IsFile(Seq<char>),
    Which(Seq<char>),
    SetStatus(LanguageServerInstallationStatus),
    Lookup(LookupView),
    CreateDirectory(Seq<char>),
    DownloadFile { url: Seq<char>, directory: Seq<char>, file_type: DownloadedFileType },
    MakeExecutable(Seq<char>),
    ShellEnv,
    Done(Result<CommandView, ErrorView>),
}

impl View for Request {
    type V = RequestView;

    open spec fn view(&self) -> RequestView {
        match self {
            Request::IsFile(path) => RequestView::IsFile(path@),
            Request::Which(name) => RequestView::Which(name@),
            Request::SetStatus(status) => RequestView::SetStatus(*status),
            Request::Lookup(lookup) => RequestView::Lookup(lookup@),
            Request::CreateDirectory(directory) => RequestView::CreateDirectory(directory@),
            Request::DownloadFile { url, directory, file_type } => RequestView::DownloadFile {
                url: url@,
                directory: directory@,
                file_type: *file_type,
            },
            Request::MakeExecutable(path) => RequestView::MakeExecutable(path@),
            Request::ShellEnv => RequestView::ShellEnv,
            Request::Done(Ok(command)) => RequestView::Done(Ok(command@)),
            Request::Done(Err(error)) => RequestView::Done(Err(error@)),
        }
    }
}

impl RequestView {
    /// Whether the host is asked to reach the network.
    pub open spec fn uses_network(self) -> bool {
        self is Lookup || self is DownloadFile
    }
}

/// The host's answer to a [`Request`].
#[derive(Debug, PartialEq, Eq)]
pub enum Reply {
    /// To [`Request::IsFile`]: whether it does.
    IsFile(bool),
    /// To [`Request::Which`]: the path found, if any.
    Which(Option<String>),
    /// To [`Request::SetStatus`]: the status is shown.
    StatusSet,
    /// To [`Request::Lookup`].
    Found(Found),
    /// To [`Request::CreateDirectory`]: done, or why not.
    DirectoryCreated(Result<(), String>),
    /// To [`Request::DownloadFile`]: done, or why not.
    Downloaded(Result<(), String>),
    /// To [`Request::MakeExecutable`]: done, or why not.
    MadeExecutable(Result<(), String>),
    /// To [`Request::ShellEnv`]: the variables and their values.
    ShellEnv(Vec<(String, String)>),
}

/// A [`Reply`] with its texts as character sequences.
pub enum ReplyView {
    IsFile(bool),
    Which(Option<Seq<char>>),
    StatusSet,
    Found(FoundView),
    DirectoryCreated(Result<(), Seq<char>>),
    Downloaded(Result<(), Seq<char>>),
    MadeExecutable(Result<(), Seq<char>>),
    ShellEnv(Seq<(Seq<char>, Seq<char>)>),
}

/// The outcome of an operation of the host, with the failure as a
/// character sequence.
pub open spec fn outcome_view(outcome: Result<(), String>) -> Result<(), Seq<char>> {
    match outcome {
        Ok(_) => Ok(()),
        Err(error) => Err(error@),
    }
}

impl View for Reply {
    type V = ReplyView;

    open spec fn view(&self) -> ReplyView {
        match self {
            Reply::IsFile(is_file) => ReplyView::IsFile(*is_file),
            Reply::Which(path) => ReplyView::Which(path.deep_view()),
            Reply::StatusSet => ReplyView::StatusSet,
            Reply::Found(found) => ReplyView::Found(found@),
            Reply::DirectoryCreated(outcome) => ReplyView::DirectoryCreated(outcome_view(*outcome)),
            Reply::Downloaded(outcome) => ReplyView::Downloaded(outcome_view(*outcome)),
            Reply::MadeExecutable(outcome) => ReplyView::MadeExecutable(outcome_view(*outcome)),
            Reply::ShellEnv(env) => ReplyView::ShellEnv(env.deep_view()),
        }
    }
}

} // verus!
