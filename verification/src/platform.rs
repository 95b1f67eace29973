//! The host platform and the keys derived from it.

use vstd::prelude::*;
use crate::text::concat3;

verus! {

/// An operating system.
#[derive(Debug, Clone, Copy, PartialEq, Eq, Structural)]
pub enum Os {
    Mac,
    Linux,
    Windows,
}

/// A processor architecture.
#[derive(Debug, Clone, Copy, PartialEq, Eq, Structural)]
pub enum Architecture {
    Aarch64,
    X86,
    X8664,
}

/// The format of a downloaded archive.
#[derive(Debug, Clone, Copy, PartialEq, Eq, Structural)]
pub enum DownloadedFileType {
    GzipTar,
    Zip,
}

/// What the host shows while a language server is being installed.
#[derive(Debug, Clone, Copy, PartialEq, Eq, Structural)]
pub enum LanguageServerInstallationStatus {
    CheckingForUpdate,
    Downloading,
}

/// The name of an architecture in platform keys.
pub open spec fn arch_name(arch: Architecture) -> Seq<char> {
    match arch {
        Architecture::Aarch64 => "aarch64"@,
        Architecture::X8664 => "x86_64"@,
        Architecture::X86 => "x86"@,
    }
}

/// The suffix of an operating system in the platform keys of release assets.
pub open spec fn os_suffix(os: Os) -> Seq<char> {
    match os {
        Os::Mac => "macos"@,
        Os::Linux => "linux-gnu"@,
        Os::Windows => "windows"@,
    }
}

/// The platform key `{arch}-{os-suffix}`, by which a release asset is matched.
pub open spec fn platform_key_of(os: Os, arch: Architecture) -> Seq<char> {
    arch_name(arch) + "-"@ + os_suffix(os)
}

/// The archive format served for an operating system: zip on Windows,
/// gzip-compressed tar elsewhere.
pub open spec fn archive_of(os: Os) -> DownloadedFileType {
    if os == Os::Windows {
        DownloadedFileType::Zip
    } else {
        DownloadedFileType::GzipTar
    }
}

/// The name of `arch` in platform keys.
pub fn architecture_name(arch: Architecture) -> (name: &'static str)
    ensures
        name@ == arch_name(arch),
{
    match arch {
        Architecture::Aarch64 => "aarch64",
        Architecture::X8664 => "x86_64",
        Architecture::X86 => "x86",
    }
}

/// The platform key of a host, such as `aarch64-macos` or `x86_64-linux-gnu`.
pub fn platform_key(os: Os, arch: Architecture) -> (key: String)
    ensures
        key@ == platform_key_of(os, arch),
{
    let suffix = match os {
        Os::Mac => "macos",
        Os::Linux => "linux-gnu",
        Os::Windows => "windows",
    };
    concat3(architecture_name(arch), "-", suffix)
}

/// The archive format served for `os`.
pub fn archive_type(os: Os) -> (file_type: DownloadedFileType)
    ensures
        file_type == archive_of(os),
{
    match os {
        Os::Windows => DownloadedFileType::Zip,
        _ => DownloadedFileType::GzipTar,
    }
}

} // verus!
