use dotnet_plugin::error::ParseError;
use dotnet_plugin::release_index::{
    resolve_version, runtime_identifier, select_download_asset, ChannelAlias, DotnetRelease,
    DotnetReleaseSdk, DotnetReleaseSdkFile, DotnetReleasesIndex, DotnetReleasesIndexJson,
    DotnetReleasesJson, DownloadAsset, NoMatchingAsset,
};
use dotnet_plugin::version::Version;

fn channel(channel_version: &str, latest_sdk: &str, release_type: &str) -> DotnetReleasesIndex {
    DotnetReleasesIndex {
        channel_version: channel_version.to_string(),
        latest_sdk: latest_sdk.to_string(),
        release_type: release_type.to_string(),
        releases_json: format!(
            "https://example.invalid/release-metadata/{}/releases.json",
            channel_version
        ),
    }
}

fn index() -> DotnetReleasesIndexJson {
    DotnetReleasesIndexJson {
        releases_index: vec![
            channel("9.0", "9.0.100-preview.1.24101.2", "sts"),
            channel("8.0", "8.0.100", "lts"),
            channel("7.0", "7.0.410", "sts"),
            channel("6.0", "6.0.425", "lts"),
        ],
    }
}

fn file(name: &str, rid: Option<&str>) -> DotnetReleaseSdkFile {
    DotnetReleaseSdkFile {
        name: name.to_string(),
        rid: rid.map(|r| r.to_string()),
        url: format!("https://example.invalid/download/{}", name),
        hash: "00".to_string(),
    }
}

fn build(version: &str, files: Vec<DotnetReleaseSdkFile>) -> DotnetReleaseSdk {
    DotnetReleaseSdk {
        version: version.to_string(),
        version_display: None,
        files,
    }
}

fn usual_files(version: &str) -> Vec<DotnetReleaseSdkFile> {
    vec![
        file(&format!("dotnet-sdk-{}-rhel.tar.gz", version), None),
        file(&format!("dotnet-sdk-{}-linux-arm64.tar.gz", version), Some("linux-arm64")),
        file(&format!("dotnet-sdk-{}-linux-x64.zip", version), Some("linux-x64")),
        file(&format!("dotnet-sdk-{}-linux-x64.tar.gz", version), Some("linux-x64")),
        file(&format!("dotnet-sdk-{}-osx-x64.pkg", version), Some("osx-x64")),
        file(&format!("dotnet-sdk-{}-osx-x64.tar.gz", version), Some("osx-x64")),
        file(&format!("dotnet-sdk-{}-win-x64.exe", version), Some("win-x64")),
        file(&format!("dotnet-sdk-{}-win-x64.zip", version), Some("win-x64")),
    ]
}

fn releases() -> DotnetReleasesJson {
    DotnetReleasesJson {
        releases: vec![
            DotnetRelease {
                sdk: build("8.0.101", usual_files("8.0.101")),
                sdks: Some(vec![
                    build("8.0.101", usual_files("8.0.101")),
                    build("8.0.100", usual_files("8.0.100")),
                ]),
            },
            DotnetRelease {
                sdk: build("8.0.100-rc.2.23502.2", usual_files("8.0.100-rc.2.23502.2")),
                sdks: None,
            },
            DotnetRelease {
                sdk: build("8.0.999", usual_files("8.0.999")),
                sdks: Some(vec![]),
            },
        ],
    }
}

#[test]
fn lts_resolves_to_the_latest_sdk_of_the_lts_channel() {
    let channels = vec![channel("8.0", "8.0.100", "lts")];
    assert_eq!(
        resolve_version("lts", &channels),
        Ok(Some(Version::new(8, 0, 100)))
    );
    assert_eq!(resolve_version("edge", &channels), Ok(None));
}

#[test]
fn alias_picks_the_first_channel_of_its_kind() {
    let channels = index().releases_index;
    assert_eq!(
        resolve_version("lts", &channels),
        Ok(Some(Version::new(8, 0, 100)))
    );
    assert_eq!(
        resolve_version("sts", &channels),
        Ok(Some(Version {
            major: 9,
            minor: 0,
            patch: 100,
            pre: "preview.1.24101.2".to_string(),
            build: String::new(),
        }))
    );
    assert_eq!(
        resolve_version("latest", &channels),
        resolve_version("sts", &channels)
    );
    assert_eq!(
        resolve_version("latest", &channels[1..].to_vec()),
        Ok(Some(Version::new(8, 0, 100)))
    );
}

#[test]
fn alias_and_release_type_match_whatever_their_case() {
    let channels = vec![channel("7.0", "7.0.410", "STS"), channel("8.0", "8.0.100", "Lts")];
    assert_eq!(
        resolve_version("LTS", &channels),
        Ok(Some(Version::new(8, 0, 100)))
    );
    assert_eq!(
        resolve_version("sTs", &channels),
        Ok(Some(Version::new(7, 0, 410)))
    );
    assert_eq!(
        resolve_version("Latest", &channels),
        Ok(Some(Version::new(7, 0, 410)))
    );
}

#[test]
fn unknown_alias_or_no_channel_resolves_to_nothing() {
    let channels = index().releases_index;
    for alias in ["edge", "", "lts ", "stable", "8.0", "canary"] {
        assert_eq!(resolve_version(alias, &channels), Ok(None));
    }
    assert_eq!(resolve_version("lts", &Vec::new()), Ok(None));
    assert_eq!(resolve_version("latest", &Vec::new()), Ok(None));
    assert_eq!(
        resolve_version("lts", &vec![channel("7.0", "7.0.410", "sts")]),
        Ok(None)
    );
    assert_eq!(
        resolve_version("lts", &vec![channel("7.0", "7.0.410", "maintenance")]),
        Ok(None)
    );
}

#[test]
fn latest_sdk_that_is_no_version_is_an_error() {
    let channels = vec![channel("8.0", "8.0", "lts"), channel("6.0", "6.0.425", "lts")];
    assert_eq!(
        resolve_version("lts", &channels),
        Err(ParseError::InvalidVersion("8.0".to_string()))
    );
    assert_eq!(
        resolve_version("latest", &channels),
        Err(ParseError::InvalidVersion("8.0".to_string()))
    );
    assert_eq!(resolve_version("sts", &channels), Ok(None));
}

#[test]
fn alias_names() {
    assert_eq!(ChannelAlias::from_name("lts"), Some(ChannelAlias::Lts));
    assert_eq!(ChannelAlias::from_name("STS"), Some(ChannelAlias::Sts));
    assert_eq!(ChannelAlias::from_name("Latest"), Some(ChannelAlias::Latest));
    assert_eq!(ChannelAlias::from_name("current"), None);
}

#[test]
fn channel_selection() {
    let channels = index().releases_index;
    assert_eq!(ChannelAlias::Lts.select_channel(&channels), Some(1));
    assert_eq!(ChannelAlias::Sts.select_channel(&channels), Some(0));
    assert_eq!(ChannelAlias::Latest.select_channel(&channels), Some(0));
    assert_eq!(ChannelAlias::Latest.select_channel(&Vec::new()), None);
    assert_eq!(
        ChannelAlias::Lts.select_channel(&vec![channel("7.0", "7.0.410", "sts")]),
        None
    );
    assert!(ChannelAlias::Lts.matches_channel(&channels[3]));
    assert!(!ChannelAlias::Lts.matches_channel(&channels[2]));
    assert!(ChannelAlias::Latest.matches_channel(&channels[2]));
}

#[test]
fn latest_version_goes_by_what_was_read() {
    let lts = channel("8.0", "8.0.100", "lts");
    assert_eq!(
        lts.latest_version(Some(Version::new(1, 2, 3))),
        Ok(Some(Version::new(1, 2, 3)))
    );
    assert_eq!(
        lts.latest_version(None),
        Err(ParseError::InvalidVersion("8.0.100".to_string()))
    );
}

#[test]
fn runtime_identifier_joins_os_and_arch() {
    assert_eq!(runtime_identifier("linux", "x64"), "linux-x64");
    assert_eq!(runtime_identifier("osx", "arm64"), "osx-arm64");
    assert_eq!(runtime_identifier("", ""), "-");
}

#[test]
fn selects_the_archive_of_the_platform() {
    assert_eq!(
        select_download_asset(&releases(), "8.0.100", "linux", "x64", ".tar.gz"),
        Ok(DownloadAsset {
            url: "https://example.invalid/download/dotnet-sdk-8.0.100-linux-x64.tar.gz"
                .to_string(),
            filename: "dotnet-sdk-8.0.100-linux-x64.tar.gz".to_string(),
        })
    );
    assert_eq!(
        select_download_asset(&releases(), "8.0.101", "win", "x64", ".zip"),
        Ok(DownloadAsset {
            url: "https://example.invalid/download/dotnet-sdk-8.0.101-win-x64.zip".to_string(),
            filename: "dotnet-sdk-8.0.101-win-x64.zip".to_string(),
        })
    );
    assert_eq!(
        select_download_asset(&releases(), "8.0.101", "linux", "x64", ".zip"),
        Ok(DownloadAsset {
            url: "https://example.invalid/download/dotnet-sdk-8.0.101-linux-x64.zip".to_string(),
            filename: "dotnet-sdk-8.0.101-linux-x64.zip".to_string(),
        })
    );
}

#[test]
fn release_without_a_list_of_builds_offers_its_latest_build() {
    assert_eq!(
        select_download_asset(&releases(), "8.0.100-rc.2.23502.2", "osx", "x64", ".tar.gz"),
        Ok(DownloadAsset {
            url: "https://example.invalid/download/dotnet-sdk-8.0.100-rc.2.23502.2-osx-x64.tar.gz"
                .to_string(),
            filename: "dotnet-sdk-8.0.100-rc.2.23502.2-osx-x64.tar.gz".to_string(),
        })
    );
}

#[test]
fn listed_builds_stand_in_for_the_latest_build() {
    assert_eq!(
        select_download_asset(&releases(), "8.0.999", "linux", "x64", ".tar.gz"),
        Err(NoMatchingAsset {
            rid: "linux-x64".to_string()
        })
    );
}

#[test]
fn no_matching_asset_names_the_runtime_identifier() {
    assert_eq!(
        select_download_asset(&releases(), "8.0.100", "freebsd", "x64", ".tar.gz"),
        Err(NoMatchingAsset {
            rid: "freebsd-x64".to_string()
        })
    );
    assert_eq!(
        select_download_asset(&releases(), "8.0.100", "linux", "x64", ".tar.xz"),
        Err(NoMatchingAsset {
            rid: "linux-x64".to_string()
        })
    );
    assert_eq!(
        select_download_asset(&releases(), "5.0.100", "linux", "x64", ".tar.gz"),
        Err(NoMatchingAsset {
            rid: "linux-x64".to_string()
        })
    );
    assert_eq!(
        select_download_asset(
            &DotnetReleasesJson { releases: vec![] },
            "8.0.100",
            "linux",
            "x64",
            ".tar.gz"
        ),
        Err(NoMatchingAsset {
            rid: "linux-x64".to_string()
        })
    );
}

#[test]
fn files_without_a_runtime_identifier_serve_no_platform() {
    let rhel = file("dotnet-sdk-8.0.100-rhel.tar.gz", None);
    assert!(!rhel.is_for("rhel", ".tar.gz"));
    assert!(!rhel.is_for("", ".tar.gz"));
    let linux = file("dotnet-sdk-8.0.100-linux-x64.tar.gz", Some("linux-x64"));
    assert!(linux.is_for("linux-x64", ".tar.gz"));
    assert!(linux.is_for("linux-x64", ""));
    assert!(!linux.is_for("linux-x6", ".tar.gz"));
    assert!(!linux.is_for("linux-x64", ".zip"));
}

#[test]
fn build_offers_its_first_serving_file() {
    let sdk = build(
        "8.0.100",
        vec![
            file("a-linux-x64.tar.gz", Some("linux-x64")),
            file("b-linux-x64.tar.gz", Some("linux-x64")),
        ],
    );
    assert_eq!(
        sdk.find_asset("8.0.100", "linux-x64", ".tar.gz"),
        Some(&sdk.files[0])
    );
    assert_eq!(sdk.find_asset("8.0.101", "linux-x64", ".tar.gz"), None);
    assert_eq!(sdk.find_asset("8.0.100", "linux-arm64", ".tar.gz"), None);
}

#[test]
fn failure_message_names_the_runtime_identifier() {
    let error = select_download_asset(&releases(), "8.0.100", "linux", "riscv64", ".tar.gz")
        .unwrap_err();
    assert_eq!(error.rid, "linux-riscv64");
    assert_eq!(
        error.message(),
        "no SDK download for the runtime identifier linux-riscv64"
    );
}
