use vstd::prelude::*;
use vstd::string::*;
use crate::text::{decimal, decimal_string, same_text, starts_with};

verus! {

/// The archive formats in which the managed program is released.
#[derive(Debug, Clone, Copy, PartialEq, Eq, Structural)]
pub enum ArchiveType {
    GZ,
    ZIP,
}

/// The file extension of an archive format.
pub open spec fn archive_ext(kind: ArchiveType) -> Seq<char> {
    match kind {
        ArchiveType::GZ => "gz"@,
        ArchiveType::ZIP => "zip"@,
    }
}

impl ArchiveType {
    /// The file extension of the format.
    pub fn as_str(&self) -> (r: &'static str)
        ensures
            r@ == archive_ext(*self),
    {
        match self {
            ArchiveType::GZ => "gz",
            ArchiveType::ZIP => "zip",
        }
    }
}

/// The name under which the managed program's releases know an operating
/// system (`std::env::consts::OS`), if they cover it.
pub open spec fn release_os_of(os: Seq<char>) -> Option<Seq<char>> {
    if os == "windows"@ {
        Some("windows"@)
    } else if os == "linux"@ {
        Some("linux"@)
    } else if os == "macos"@ {
        Some("darwin"@)
    } else {
        None
    }
}

/// The name under which the releases know a processor architecture
/// (`std::env::consts::ARCH`), if they cover it.
pub open spec fn release_arch_of(arch: Seq<char>) -> Option<Seq<char>> {
    if arch == "x86_64"@ {
        Some("amd64"@)
    } else if arch == "aarch64"@ {
        Some("arm64"@)
    } else {
        None
    }
}

/// Why the managed program cannot be provisioned.
#[derive(Debug, Clone, Copy, PartialEq, Eq, Structural)]
pub enum ProvisionError {
    UnsupportedOs,
    UnsupportedArch,
    /// A single-file zip archive holds no file.
    EmptyArchive,
    /// A single-file zip archive holds this many files.
    MultipleEntries(usize),
}

/// The release name of an operating system.
pub fn release_os(os: &str) -> (r: Result<&'static str, ProvisionError>)
    ensures
        match r {
            Ok(n) => release_os_of(os@) == Some(n@),
            Err(e) => release_os_of(os@) is None && e == ProvisionError::UnsupportedOs,
        },
{
    if same_text(os, "windows") {
        Ok("windows")
    } else if same_text(os, "linux") {
        Ok("linux")
    } else if same_text(os, "macos") {
        Ok("darwin")
    } else {
        Err(ProvisionError::UnsupportedOs)
    }
}

/// The release name of a processor architecture.
pub fn release_arch(arch: &str) -> (r: Result<&'static str, ProvisionError>)
    ensures
        match r {
            Ok(n) => release_arch_of(arch@) == Some(n@),
            Err(e) => release_arch_of(arch@) is None && e == ProvisionError::UnsupportedArch,
        },
{
    if same_text(arch, "x86_64") {
        Ok("amd64")
    } else if same_text(arch, "aarch64") {
        Ok("arm64")
    } else {
        Err(ProvisionError::UnsupportedArch)
    }
}

/// The archive format released for an operating system: zip on Windows, gzip
/// elsewhere.
pub fn release_archive(os: &str) -> (r: ArchiveType)
    ensures
        r == (if os@ == "windows"@ { ArchiveType::ZIP } else { ArchiveType::GZ }),
{
    if same_text(os, "windows") {
        ArchiveType::ZIP
    } else {
        ArchiveType::GZ
    }
}

/// The URL of the file naming the latest release, through `proxy`.
pub fn version_url(proxy: &str) -> (r: String)
    ensures
        r@ == proxy@ + "https://github.com/MetaCubeX/mihomo/releases/latest/download/version.txt"@,
{
    String::from_str(proxy).concat(
        "https://github.com/MetaCubeX/mihomo/releases/latest/download/version.txt",
    )
}

/// The URL of the release archive of `version` for a platform, through `proxy`.
pub fn download_url(proxy: &str, version: &str, os: &str, arch: &str, kind: ArchiveType) -> (r:
    String)
    ensures
        r@ == proxy@ + "https://github.com/MetaCubeX/mihomo/releases/download/"@ + version@
            + "/mihomo-"@ + os@ + "-"@ + arch@ + "-"@ + version@ + "."@ + archive_ext(kind),
{
    String::from_str(proxy).concat("https://github.com/MetaCubeX/mihomo/releases/download/").concat(
        version,
    ).concat("/mihomo-").concat(os).concat("-").concat(arch).concat("-").concat(version).concat(
        ".",
    ).concat(kind.as_str())
}

/// The file name under which a release archive is saved.
pub fn archive_file_name(kind: ArchiveType) -> (r: String)
    ensures
        r@ == "mihomo."@ + archive_ext(kind),
{
    String::from_str("mihomo.").concat(kind.as_str())
}

/// The URL of the web dashboard's archive, through `proxy`.
pub fn dashboard_url(proxy: &str) -> (r: String)
    ensures
        r@ == proxy@ + "https://github.com/MetaCubeX/metacubexd/archive/refs/heads/gh-pages.zip"@,
{
    String::from_str(proxy).concat(
        "https://github.com/MetaCubeX/metacubexd/archive/refs/heads/gh-pages.zip",
    )
}

/// The URL of a geodata file, through `proxy`.
pub fn geofile_url(proxy: &str, file_name: &str) -> (r: String)
    ensures
        r@ == proxy@ + "https://github.com/MetaCubeX/meta-rules-dat/releases/download/latest/"@
            + file_name@,
{
    String::from_str(proxy).concat(
        "https://github.com/MetaCubeX/meta-rules-dat/releases/download/latest/",
    ).concat(file_name)
}

/// The geodata files the managed program needs, in the order they are fetched.
pub fn geofile_names() -> (r: Vec<&'static str>)
    ensures
        r@.len() == 2,
        r@[0]@ == "geosite.dat"@,
        r@[1]@ == "geoip.dat"@,
{
    let mut v: Vec<&'static str> = Vec::new();
    v.push("geosite.dat");
    v.push("geoip.dat");
    v
}

/// The local address on which the managed program serves its control API.
pub fn controller_address(port: u16) -> (r: String)
    ensures
        r@ == "127.0.0.1:"@ + decimal(port as nat),
{
    let d = decimal_string(port as u64);
    String::from_str("127.0.0.1:").concat(d.as_str())
}

/// The shell script that points the proxy variables at the local proxy port.
pub fn proxy_on_script(port: u16) -> (r: String)
    ensures
        r@ == "#!/bin/sh\nexport http_proxy=\"http://127.0.0.1:"@ + decimal(port as nat)
            + "\"\nexport HTTP_PROXY=$http_proxy\nexport https_proxy=$http_proxy\nexport HTTPS_PROXY=$http_proxy\nexport all_proxy=$http_proxy\nexport ALL_PROXY=$http_proxy\n"@,
{
    let d = decimal_string(port as u64);
    String::from_str("#!/bin/sh\nexport http_proxy=\"http://127.0.0.1:").concat(d.as_str()).concat(
        "\"\nexport HTTP_PROXY=$http_proxy\nexport https_proxy=$http_proxy\nexport HTTPS_PROXY=$http_proxy\nexport all_proxy=$http_proxy\nexport ALL_PROXY=$http_proxy\n",
    )
}

/// The shell script that clears the proxy variables.
pub fn proxy_off_script() -> (r: &'static str)
    ensures
        r@ == "#!/bin/sh\nunset http_proxy HTTP_PROXY https_proxy HTTPS_PROXY all_proxy ALL_PROXY\n"@,
{
    "#!/bin/sh\nunset http_proxy HTTP_PROXY https_proxy HTTPS_PROXY all_proxy ALL_PROXY\n"
}

/// The URL begins with `http://` or `https://`.
pub open spec fn http_url(url: Seq<char>) -> bool {
    (url.len() >= 7 && url.subrange(0, 7) == "http://"@) || (url.len() >= 8 && url.subrange(0, 8)
        == "https://"@)
}

/// Whether a subscription URL names an HTTP or HTTPS resource.
pub fn is_http_url(url: &str) -> (r: bool)
    ensures
        r == http_url(url@),
{
    proof {
        reveal_strlit("http://");
        reveal_strlit("https://");
    }
    starts_with(url, "http://") || starts_with(url, "https://")
}

/// Checks that a zip archive meant to hold the program holds exactly one file.
pub fn single_entry(count: usize) -> (r: Result<(), ProvisionError>)
    ensures
        count == 1 <==> r is Ok,
        count == 0 ==> r == Err::<(), ProvisionError>(ProvisionError::EmptyArchive),
        count > 1 ==> r == Err::<(), ProvisionError>(ProvisionError::MultipleEntries(count)),
{
    if count == 1 {
        Ok(())
    } else if count == 0 {
        Err(ProvisionError::EmptyArchive)
    } else {
        Err(ProvisionError::MultipleEntries(count))
    }
}

/// Where the configuration comes from when the managed process starts.
#[derive(Debug, Clone, Copy, PartialEq, Eq, Structural)]
pub enum ConfigSource {
    /// Download it from the subscription URL.
    Download,
    /// The subscription URL is not HTTP(S): leave the configuration alone.
    SkipUrl,
    /// The configuration on disk is valid: keep it.
    Keep,
    /// There is no valid configuration: offer to read one from the operator.
    AskOperator,
}

/// Decides where the configuration comes from, given the subscription URL,
/// if one was given, and whether the configuration on disk is valid.
pub fn config_source(url: Option<&str>, config_valid: bool) -> (r: ConfigSource)
    ensures
        r == match url {
            Some(u) => if http_url(u@) { ConfigSource::Download } else { ConfigSource::SkipUrl },
            None => if config_valid { ConfigSource::Keep } else { ConfigSource::AskOperator },
        },
{
    match url {
        Some(u) => if is_http_url(u) {
            ConfigSource::Download
        } else {
            ConfigSource::SkipUrl
        },
        None => if config_valid {
            ConfigSource::Keep
        } else {
            ConfigSource::AskOperator
        },
    }
}

} // verus!
