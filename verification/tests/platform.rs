use zed_zig::platform::{
    architecture_name, archive_type, platform_key, Architecture, DownloadedFileType, Os,
};

#[test]
fn platform_key_of_each_host() {
    assert_eq!(platform_key(Os::Mac, Architecture::Aarch64), "aarch64-macos");
    assert_eq!(platform_key(Os::Mac, Architecture::X8664), "x86_64-macos");
    assert_eq!(platform_key(Os::Mac, Architecture::X86), "x86-macos");
    assert_eq!(platform_key(Os::Linux, Architecture::Aarch64), "aarch64-linux-gnu");
    assert_eq!(platform_key(Os::Linux, Architecture::X8664), "x86_64-linux-gnu");
    assert_eq!(platform_key(Os::Linux, Architecture::X86), "x86-linux-gnu");
    assert_eq!(platform_key(Os::Windows, Architecture::Aarch64), "aarch64-windows");
    assert_eq!(platform_key(Os::Windows, Architecture::X8664), "x86_64-windows");
    assert_eq!(platform_key(Os::Windows, Architecture::X86), "x86-windows");
}

#[test]
fn architecture_names() {
    assert_eq!(architecture_name(Architecture::Aarch64), "aarch64");
    assert_eq!(architecture_name(Architecture::X8664), "x86_64");
    assert_eq!(architecture_name(Architecture::X86), "x86");
}

#[test]
fn archive_is_zip_on_windows_only() {
    assert_eq!(archive_type(Os::Windows), DownloadedFileType::Zip);
    assert_eq!(archive_type(Os::Linux), DownloadedFileType::GzipTar);
    assert_eq!(archive_type(Os::Mac), DownloadedFileType::GzipTar);
}
