use mihomo_proxy::provision::{
    archive_file_name, controller_address, dashboard_url, download_url, geofile_names,
    geofile_url, is_http_url, proxy_off_script, proxy_on_script, release_arch, release_archive,
    release_os, single_entry, version_url, config_source, ArchiveType, ConfigSource,
    ProvisionError,
};

#[test]
fn archive_extensions() {
    assert_eq!(ArchiveType::GZ.as_str(), "gz");
    assert_eq!(ArchiveType::ZIP.as_str(), "zip");
    assert_eq!(archive_file_name(ArchiveType::ZIP), "mihomo.zip");
}

#[test]
fn release_platform_names() {
    assert_eq!(release_os("macos"), Ok("darwin"));
    assert_eq!(release_os("linux"), Ok("linux"));
    assert_eq!(release_os("windows"), Ok("windows"));
    assert_eq!(release_os("freebsd"), Err(ProvisionError::UnsupportedOs));
    assert_eq!(release_arch("x86_64"), Ok("amd64"));
    assert_eq!(release_arch("aarch64"), Ok("arm64"));
    assert_eq!(release_arch("riscv64"), Err(ProvisionError::UnsupportedArch));
    assert_eq!(release_archive("windows"), ArchiveType::ZIP);
    assert_eq!(release_archive("linux"), ArchiveType::GZ);
}

#[test]
fn release_urls() {
    assert_eq!(
        version_url("https://tvv.tw/"),
        "https://tvv.tw/https://github.com/MetaCubeX/mihomo/releases/latest/download/version.txt"
    );
    assert_eq!(
        download_url("", "v1.19.0", "linux", "amd64", ArchiveType::GZ),
        "https://github.com/MetaCubeX/mihomo/releases/download/v1.19.0/mihomo-linux-amd64-v1.19.0.gz"
    );
    assert_eq!(
        dashboard_url(""),
        "https://github.com/MetaCubeX/metacubexd/archive/refs/heads/gh-pages.zip"
    );
    assert_eq!(
        geofile_url("p/", "geoip.dat"),
        "p/https://github.com/MetaCubeX/meta-rules-dat/releases/download/latest/geoip.dat"
    );
    assert_eq!(geofile_names(), vec!["geosite.dat", "geoip.dat"]);
}

#[test]
fn scripts_and_addresses() {
    assert_eq!(controller_address(9090), "127.0.0.1:9090");
    let on = proxy_on_script(7890);
    assert!(on.starts_with("#!/bin/sh\nexport http_proxy=\"http://127.0.0.1:7890\"\n"));
    assert!(on.ends_with("export ALL_PROXY=$http_proxy\n"));
    assert_eq!(
        proxy_off_script(),
        "#!/bin/sh\nunset http_proxy HTTP_PROXY https_proxy HTTPS_PROXY all_proxy ALL_PROXY\n"
    );
}

#[test]
fn subscription_url_scheme() {
    assert!(is_http_url("http://a"));
    assert!(is_http_url("https://a"));
    assert!(!is_http_url("ftp://a"));
    assert!(!is_http_url("http:/"));
}

#[test]
fn zip_entry_count() {
    assert_eq!(single_entry(1), Ok(()));
    assert_eq!(single_entry(0), Err(ProvisionError::EmptyArchive));
    assert_eq!(single_entry(3), Err(ProvisionError::MultipleEntries(3)));
}

#[test]
fn config_source_decisions() {
    assert_eq!(config_source(Some("https://sub/x"), false), ConfigSource::Download);
    assert_eq!(config_source(Some("ftp://sub/x"), true), ConfigSource::SkipUrl);
    assert_eq!(config_source(None, true), ConfigSource::Keep);
    assert_eq!(config_source(None, false), ConfigSource::AskOperator);
}
