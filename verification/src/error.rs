//! The failures of resolution and acquisition, and the text shown for each.

use vstd::prelude::*;
use crate::text::{concat2, concat3};

verus! {

/// Why a resolution pass failed.
#[derive(Debug, Clone, PartialEq, Eq)]
pub enum Error {
    /// No release asset matches the platform.
    AssetNotFound(String),
    /// The archive could not be downloaded.
    DownloadFailed(String),
    /// A file operation failed.
    FileSystem(String),
    /// The install directory could not be prepared.
    InstallationFailed(String),
    /// A release lookup failed, or a response could not be read.
    LanguageServer(String),
    /// An HTTP request failed.
    FetchFailed { url: String, error: String },
    /// A response lacks a field; `field` is its dotted path.
    Missing { field: String },
    /// A value could not be serialized.
    SerializationFailed(String),
    /// The host could not supply the settings.
    Settings(String),
    /// The user's configuration is wrong; `fix` says how to mend it.
    Configuration { message: String, fix: String },
}

/// An [`Error`] with its texts as character sequences.
pub enum ErrorView {
    AssetNotFound(Seq<char>),
    DownloadFailed(Seq<char>),
    FileSystem(Seq<char>),
    InstallationFailed(Seq<char>),
    LanguageServer(Seq<char>),
    FetchFailed { url: Seq<char>, error: Seq<char> },
    Missing { field: Seq<char> },
    SerializationFailed(Seq<char>),
    Settings(Seq<char>),
    Configuration { message: Seq<char>, fix: Seq<char> },
}

impl View for Error {
    type V = ErrorView;

    open spec fn view(&self) -> ErrorView {
        match self {
            Error::AssetNotFound(s) => ErrorView::AssetNotFound(s@),
            Error::DownloadFailed(s) => ErrorView::DownloadFailed(s@),
            Error::FileSystem(s) => ErrorView::FileSystem(s@),
            Error::InstallationFailed(s) => ErrorView::InstallationFailed(s@),
            Error::LanguageServer(s) => ErrorView::LanguageServer(s@),
            Error::FetchFailed { url, error } => ErrorView::FetchFailed { url: url@, error: error@ },
            Error::Missing { field } => ErrorView::Missing { field: field@ },
            Error::SerializationFailed(s) => ErrorView::SerializationFailed(s@),
            Error::Settings(s) => ErrorView::Settings(s@),
            Error::Configuration { message, fix } => ErrorView::Configuration {
                message: message@,
                fix: fix@,
            },
        }
    }
}

impl DeepView for Error {
    type V = ErrorView;

    open spec fn deep_view(&self) -> ErrorView {
        self@
    }
}

impl ErrorView {
    /// The text shown to the user for this failure.
    pub open spec fn message(self) -> Seq<char> {
        match self {
            ErrorView::AssetNotFound(s) => "Asset not found: "@ + s,
            ErrorView::DownloadFailed(s) => "Download failed: "@ + s,
            ErrorView::FileSystem(s) => "File system error: "@ + s,
            ErrorView::InstallationFailed(s) => "Installation failed: "@ + s,
            ErrorView::LanguageServer(s) => "Language server error: "@ + s,
            ErrorView::FetchFailed { url, error } => "Failed to fetch from "@ + url + ": "@ + error,
            ErrorView::Missing { field } => "Missing field in response: "@ + field,
            ErrorView::SerializationFailed(s) => "Failed to serialize: "@ + s,
            ErrorView::Settings(s) => "Failed to get settings: "@ + s,
            ErrorView::Configuration { message, fix } => "Configuration error: "@ + message + ". "@
                + fix,
        }
    }
}

impl Error {
    /// The text shown to the user for this failure.
    pub fn message(&self) -> (text: String)
        ensures
            text@ == self@.message(),
    {
        match self {
            Error::AssetNotFound(s) => concat2("Asset not found: ", s.as_str()),
            Error::DownloadFailed(s) => concat2("Download failed: ", s.as_str()),
            Error::FileSystem(s) => concat2("File system error: ", s.as_str()),
            Error::InstallationFailed(s) => concat2("Installation failed: ", s.as_str()),
            Error::LanguageServer(s) => concat2("Language server error: ", s.as_str()),
            Error::FetchFailed { url, error } => {
                let head = concat3("Failed to fetch from ", url.as_str(), ": ");
                concat2(head.as_str(), error.as_str())
            },
            Error::Missing { field } => concat2("Missing field in response: ", field.as_str()),
            Error::SerializationFailed(s) => concat2("Failed to serialize: ", s.as_str()),
            Error::Settings(s) => concat2("Failed to get settings: ", s.as_str()),
            Error::Configuration { message, fix } => {
                let head = concat3("Configuration error: ", message.as_str(), ". ");
                concat2(head.as_str(), fix.as_str())
            },
        }
    }

    /// A copy of this failure.
    pub fn duplicate(&self) -> (copy: Error)
        ensures
            copy@ == self@,
    {
        match self {
            Error::AssetNotFound(s) => Error::AssetNotFound(s.clone()),
            Error::DownloadFailed(s) => Error::DownloadFailed(s.clone()),
            Error::FileSystem(s) => Error::FileSystem(s.clone()),
            Error::InstallationFailed(s) => Error::InstallationFailed(s.clone()),
            Error::LanguageServer(s) => Error::LanguageServer(s.clone()),
            Error::FetchFailed { url, error } => Error::FetchFailed {
                url: url.clone(),
                error: error.clone(),
            },
            Error::Missing { field } => Error::Missing { field: field.clone() },
            Error::SerializationFailed(s) => Error::SerializationFailed(s.clone()),
            Error::Settings(s) => Error::Settings(s.clone()),
            Error::Configuration { message, fix } => Error::Configuration {
                message: message.clone(),
                fix: fix.clone(),
            },
        }
    }
}

} // verus!
