//! The user's configuration: which provider supplies the language server
//! and, for a custom provider, where its versions are listed.

use vstd::prelude::*;
use crate::error::{Error, ErrorView};
use crate::json::Json;
use crate::text::{chars_eq, chars_of, clone_strings, concat2, owned};
use crate::util::{is_http_url, parse_url};

verus! {

/// The backend that supplies the language server.
#[derive(Debug, Clone, Copy, PartialEq, Eq, Structural)]
pub enum Provider {
    Zigscient,
    Zls,
    ZlsStable,
    Custom,
}

impl Default for Provider {
    fn default() -> (provider: Provider)
        ensures
            provider == Provider::Zls,
    {
        Provider::Zls
    }
}

/// The kinds of version source.
#[derive(Debug, Clone, Copy, PartialEq, Eq, Structural)]
pub enum SourceType {
    Github,
    Api,
}

/// Where the versions of a custom provider are listed.
#[derive(Debug, Clone, PartialEq, Eq)]
pub enum VersionSource {
    /// The releases of a GitHub repository named as `owner/repo`.
    GitHub { repo_url: String, pre_release: bool },
    /// An endpoint that answers with a JSON document.
    ApiEndpoint { url: String },
}

/// A [`VersionSource`] with its texts as character sequences.
pub enum VersionSourceView {
    GitHub { repo_url: Seq<char>, pre_release: bool },
    ApiEndpoint { url: Seq<char> },
}

impl View for VersionSource {
    type V = VersionSourceView;

    open spec fn view(&self) -> VersionSourceView {
        match self {
            VersionSource::GitHub { repo_url, pre_release } => VersionSourceView::GitHub {
                repo_url: repo_url@,
                pre_release: *pre_release,
            },
            VersionSource::ApiEndpoint { url } => VersionSourceView::ApiEndpoint { url: url@ },
        }
    }
}

impl DeepView for VersionSource {
    type V = VersionSourceView;

    open spec fn deep_view(&self) -> VersionSourceView {
        self@
    }
}

/// How often `c` occurs in `text`.
pub open spec fn count_of(text: Seq<char>, c: char) -> nat
    decreases text.len(),
{
    if text.len() == 0 {
        0
    } else {
        count_of(text.drop_last(), c) + if text.last() == c {
            1nat
        } else {
            0nat
        }
    }
}

impl VersionSourceView {
    /// The kind of this source.
    pub open spec fn source_type(self) -> SourceType {
        match self {
            VersionSourceView::GitHub { .. } => SourceType::Github,
            VersionSourceView::ApiEndpoint { .. } => SourceType::Api,
        }
    }

    /// A GitHub source names its repository with exactly one `/`; an
    /// endpoint is an absolute `http` or `https` URL.
    pub open spec fn well_formed(self) -> bool {
        match self {
            VersionSourceView::GitHub { repo_url, .. } => count_of(repo_url, '/') == 1,
            VersionSourceView::ApiEndpoint { url } => is_http_url(url),
        }
    }

    /// The failure given for a source that is not well formed.
    pub open spec fn rejection(self) -> ErrorView {
        match self {
            VersionSourceView::GitHub { .. } => ErrorView::Configuration {
                message: "Invalid GitHub repository format"@,
                fix: "Please provide the repository in the format 'owner/repo' (e.g. 'zigtools/zls')"@,
            },
            VersionSourceView::ApiEndpoint { url } => ErrorView::Configuration {
                message: "Invalid URL: "@ + url,
                fix: "Please provide a valid URL starting with http:// or https://"@,
            },
        }
    }
}

fn count_char(text: &str, c: char) -> (count: usize)
    ensures
        count == count_of(text@, c),
{
    let chars = chars_of(text);
    let mut count: usize = 0;
    let mut i: usize = 0;
    while i < chars.len()
        invariant
            i <= chars.len(),
            count <= i,
            count == count_of(chars@.take(i as int), c),
        decreases chars.len() - i,
    {
        assert(chars@.take(i + 1).drop_last() == chars@.take(i as int));
        if chars[i] == c {
            count = count + 1;
        }
        i = i + 1;
    }
    assert(chars@.take(chars.len() as int) == chars@);
    count
}

impl VersionSource {
    /// The kind of this source.
    pub fn source_type(&self) -> (kind: SourceType)
        ensures
            kind == self@.source_type(),
    {
        match self {
            VersionSource::GitHub { .. } => SourceType::Github,
            VersionSource::ApiEndpoint { .. } => SourceType::Api,
        }
    }

    /// Checks that the source is well formed.
    pub fn validate(&self) -> (checked: Result<(), Error>)
        ensures
            checked is Ok <==> self@.well_formed(),
            checked matches Err(error) ==> error@ == self@.rejection(),
    {
        match self {
            VersionSource::GitHub { repo_url, .. } => {
                if count_char(repo_url.as_str(), '/') != 1 {
                    Err(
                        Error::Configuration {
                            message: owned("Invalid GitHub repository format"),
                            fix: owned(
                                "Please provide the repository in the format 'owner/repo' (e.g. 'zigtools/zls')",
                            ),
                        },
                    )
                } else {
                    Ok(())
                }
            },
            VersionSource::ApiEndpoint { url } => {
                if parse_url(url.as_str()).is_err() {
                    Err(
                        Error::Configuration {
                            message: concat2("Invalid URL: ", url.as_str()),
                            fix: owned("Please provide a valid URL starting with http:// or https://"),
                        },
                    )
                } else {
                    Ok(())
                }
            },
        }
    }

    /// A copy of this source.
    pub fn duplicate(&self) -> (copy: VersionSource)
        ensures
            copy@ == self@,
    {
        match self {
            VersionSource::GitHub { repo_url, pre_release } => VersionSource::GitHub {
                repo_url: repo_url.clone(),
                pre_release: *pre_release,
            },
            VersionSource::ApiEndpoint { url } => VersionSource::ApiEndpoint { url: url.clone() },
        }
    }

    /// Reads a source from its settings object: `type` is `github` or
    /// `api` and `url` is a string; a GitHub source may carry a boolean
    /// `pre_release`, taken as false where it is absent. Anything else is
    /// no source.
    pub fn from_json(settings: &Json) -> (source: Option<VersionSource>)
        ensures
            match source {
                Some(read) => version_source_of(*settings) == Some(read@),
                None => version_source_of(*settings) is None,
            },
    {
        let tag = match settings.get("type") {
            Some(value) => match value.as_str() {
                Some(tag) => chars_of(tag),
                None => { return None; },
            },
            None => { return None; },
        };
        let url = match settings.get("url") {
            Some(value) => match value.as_str() {
                Some(url) => url,
                None => { return None; },
            },
            None => { return None; },
        };
        if chars_eq(&tag, &chars_of("github")) {
            let pre_release = match settings.get("pre_release") {
                Some(value) => match value.as_bool() {
                    Some(flag) => flag,
                    None => { return None; },
                },
                None => false,
            };
            Some(VersionSource::GitHub { repo_url: owned(url), pre_release })
        } else if chars_eq(&tag, &chars_of("api")) {
            Some(VersionSource::ApiEndpoint { url: owned(url) })
        } else {
            None
        }
    }
}

/// The text of the string member `key` of `settings`.
pub open spec fn text_member(settings: Json, key: Seq<char>) -> Option<Seq<char>> {
    match settings.member(key) {
        Some(value) => value.text(),
        None => None,
    }
}

/// The version source that a settings object describes.
pub open spec fn version_source_of(settings: Json) -> Option<VersionSourceView> {
    match (text_member(settings, "type"@), text_member(settings, "url"@)) {
        (Some(tag), Some(url)) => if tag == "github"@ {
            match settings.member("pre_release"@) {
                None => Some(VersionSourceView::GitHub { repo_url: url, pre_release: false }),
                Some(value) => match value.flag() {
                    Some(pre_release) => Some(VersionSourceView::GitHub { repo_url: url, pre_release }),
                    None => None,
                },
            }
        } else if tag == "api"@ {
            Some(VersionSourceView::ApiEndpoint { url })
        } else {
            None
        },
        _ => None,
    }
}

/// The lower-case form of an ASCII capital; any other character itself.
pub open spec fn ascii_lower(c: char) -> char {
    if 'A' <= c <= 'Z' {
        ((c as u8) + 32) as char
    } else {
        c
    }
}

/// `text` with its ASCII capitals in lower case.
pub open spec fn lowered(text: Seq<char>) -> Seq<char> {
    text.map_values(|c: char| ascii_lower(c))
}

/// The provider that a name selects, whatever the case of its letters:
/// `zls`, `zls-stable` (also written `zls_stable`), `zigscient` or `custom`.
pub open spec fn provider_named(name: Seq<char>) -> Option<Provider> {
    let lower = lowered(name);
    if lower == "zls"@ {
        Some(Provider::Zls)
    } else if lower == "zls-stable"@ || lower == "zls_stable"@ {
        Some(Provider::ZlsStable)
    } else if lower == "zigscient"@ {
        Some(Provider::Zigscient)
    } else if lower == "custom"@ {
        Some(Provider::Custom)
    } else {
        None
    }
}

/// The provider that a settings value selects: a string naming one.
pub open spec fn provider_of(value: Json) -> Option<Provider> {
    match value.text() {
        Some(name) => provider_named(name),
        None => None,
    }
}

fn lower_chars(text: &str) -> (lower: Vec<char>)
    ensures
        lower@ == lowered(text@),
{
    let chars = chars_of(text);
    let mut lower: Vec<char> = Vec::new();
    let mut i: usize = 0;
    while i < chars.len()
        invariant
            i <= chars.len(),
            lower.len() == i,
            forall|k: int| 0 <= k < i ==> lower@[k] == ascii_lower(chars@[k]),
        decreases chars.len() - i,
    {
        let c = chars[i];
        if 'A' <= c && c <= 'Z' {
            lower.push(((c as u8) + 32) as char);
        } else {
            lower.push(c);
        }
        i = i + 1;
    }
    assert(lower@ =~= lowered(text@));
    lower
}

impl Provider {
    /// The provider that `name` selects, whatever the case of its letters.
    pub fn from_name(name: &str) -> (provider: Option<Provider>)
        ensures
            provider == provider_named(name@),
    {
        let lower = lower_chars(name);
        if chars_eq(&lower, &chars_of("zls")) {
            Some(Provider::Zls)
        } else if chars_eq(&lower, &chars_of("zls-stable")) || chars_eq(
            &lower,
            &chars_of("zls_stable"),
        ) {
            Some(Provider::ZlsStable)
        } else if chars_eq(&lower, &chars_of("zigscient")) {
            Some(Provider::Zigscient)
        } else if chars_eq(&lower, &chars_of("custom")) {
            Some(Provider::Custom)
        } else {
            None
        }
    }

    /// The provider that a settings value selects.
    pub fn from_json(value: &Json) -> (provider: Option<Provider>)
        ensures
            provider == provider_of(*value),
    {
        match value.as_str() {
            Some(name) => Provider::from_name(name),
            None => None,
        }
    }
}

/// How the user has the binary started.
#[derive(Debug, PartialEq, Eq)]
pub struct CommandSettings {
    /// The path of the binary.
    pub path: Option<String>,
    /// The arguments to start it with.
    pub arguments: Option<Vec<String>>,
}

/// The host's settings for the language server.
#[derive(Debug, PartialEq, Eq)]
pub struct LspSettings {
    /// The settings of the binary.
    pub binary: Option<CommandSettings>,
    /// The settings object handed to the extension.
    pub settings: Option<Json>,
}

/// The effective configuration of one session.
#[derive(Debug, Clone, PartialEq, Eq)]
pub struct ZigTooling {
    pub provider: Provider,
    pub path: Option<String>,
    pub args: Option<Vec<String>>,
    pub version_source: Option<VersionSource>,
}

/// A [`ZigTooling`] with its texts as character sequences.
pub struct ZigToolingView {
    pub provider: Provider,
    pub path: Option<Seq<char>>,
    pub args: Option<Seq<Seq<char>>>,
    pub version_source: Option<VersionSourceView>,
}

impl View for ZigTooling {
    type V = ZigToolingView;

    open spec fn view(&self) -> ZigToolingView {
        ZigToolingView {
            provider: self.provider,
            path: self.path.deep_view(),
            args: self.args.deep_view(),
            version_source: self.version_source.deep_view(),
        }
    }
}

impl DeepView for ZigTooling {
    type V = ZigToolingView;

    open spec fn deep_view(&self) -> ZigToolingView {
        self@
    }
}

impl Default for ZigTooling {
    fn default() -> (tooling: ZigTooling)
        ensures
            tooling@ == ZigToolingView::initial(),
    {
        ZigTooling { provider: Provider::Zls, path: None, args: None, version_source: None }
    }
}

/// The member `key` of an optional settings object.
pub open spec fn setting(settings: Option<Json>, key: Seq<char>) -> Option<Json> {
    match settings {
        Some(object) => object.member(key),
        None => None,
    }
}

impl ZigToolingView {
    /// The configuration in force before any settings were read: the
    /// default provider and nothing else.
    pub open spec fn initial() -> ZigToolingView {
        ZigToolingView { provider: Provider::Zls, path: None, args: None, version_source: None }
    }

    /// The configuration that settings describe. Path and arguments are
    /// those of the binary settings. A `provider` that names a provider
    /// selects it, any other leaves the default; a `version_source` that
    /// describes a source is taken, any other is ignored.
    pub open spec fn from_settings(settings: LspSettings) -> ZigToolingView {
        ZigToolingView {
            provider: match setting(settings.settings, "provider"@) {
                Some(value) => match provider_of(value) {
                    Some(provider) => provider,
                    None => Provider::Zls,
                },
                None => Provider::Zls,
            },
            path: match settings.binary {
                Some(binary) => binary.path.deep_view(),
                None => None,
            },
            args: match settings.binary {
                Some(binary) => binary.arguments.deep_view(),
                None => None,
            },
            version_source: match setting(settings.settings, "version_source"@) {
                Some(value) => version_source_of(value),
                None => None,
            },
        }
    }

    /// A custom provider needs a well-formed version source; the other
    /// providers need nothing.
    pub open spec fn acceptable(self) -> bool {
        self.provider == Provider::Custom ==> (self.version_source matches Some(source)
            && source.well_formed())
    }

    /// The failure given for a configuration that is not acceptable.
    pub open spec fn rejection(self) -> ErrorView {
        match self.version_source {
            Some(source) => source.rejection(),
            None => ErrorView::Configuration {
                message: "Custom provider requires version_source configuration"@,
                fix: "Please add a version_source configuration with either 'github' or 'api' type"@,
            },
        }
    }
}

/// A copy of an optional string.
pub fn clone_text(text: &Option<String>) -> (copy: Option<String>)
    ensures
        copy.deep_view() == text.deep_view(),
{
    match text {
        Some(s) => Some(s.clone()),
        None => None,
    }
}

/// A copy of an optional list of strings.
pub fn clone_texts(list: &Option<Vec<String>>) -> (copy: Option<Vec<String>>)
    ensures
        copy.deep_view() == list.deep_view(),
{
    match list {
        Some(items) => Some(clone_strings(items)),
        None => None,
    }
}

impl ZigTooling {
    /// The configuration that `settings` describe.
    pub fn from_settings(settings: &LspSettings) -> (tooling: ZigTooling)
        ensures
            tooling@ == ZigToolingView::from_settings(*settings),
    {
        let mut tooling = ZigTooling {
            provider: Provider::Zls,
            path: None,
            args: None,
            version_source: None,
        };
        match &settings.binary {
            Some(binary) => {
                tooling.path = clone_text(&binary.path);
                tooling.args = clone_texts(&binary.arguments);
            },
            None => {},
        }
        match &settings.settings {
            Some(object) => {
                match object.get("provider") {
                    Some(value) => match Provider::from_json(value) {
                        Some(provider) => { tooling.provider = provider; },
                        None => {},
                    },
                    None => {},
                }
                match object.get("version_source") {
                    Some(value) => match VersionSource::from_json(value) {
                        Some(source) => { tooling.version_source = Some(source); },
                        None => {},
                    },
                    None => {},
                }
            },
            None => {},
        }
        tooling
    }

    /// Checks the configuration before anything is looked up.
    pub fn validate(&self) -> (checked: Result<(), Error>)
        ensures
            checked is Ok <==> self@.acceptable(),
            checked matches Err(error) ==> error@ == self@.rejection(),
    {
        match self.provider {
            Provider::Custom => match &self.version_source {
                None => Err(
                    Error::Configuration {
                        message: owned("Custom provider requires version_source configuration"),
                        fix: owned(
                            "Please add a version_source configuration with either 'github' or 'api' type",
                        ),
                    },
                ),
                Some(source) => source.validate(),
            },
            _ => Ok(()),
        }
    }

    /// A copy of this configuration.
    pub fn duplicate(&self) -> (copy: ZigTooling)
        ensures
            copy@ == self@,
    {
        ZigTooling {
            provider: self.provider,
            path: clone_text(&self.path),
            args: clone_texts(&self.args),
            version_source: match &self.version_source {
                Some(source) => Some(source.duplicate()),
                None => None,
            },
        }
    }
}

} // verus!
