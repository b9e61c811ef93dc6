use dotnet_plugin::error::ParseError;
use dotnet_plugin::global_json::{
    detect_version_files, is_version_file, GlobalJsonSdk, RollForward,
};
use dotnet_plugin::range::{RangeKind, VersionRange};
use dotnet_plugin::version::{BandEnd, Version};

const POLICIES: [RollForward; 9] = [
    RollForward::Major,
    RollForward::Minor,
    RollForward::Feature,
    RollForward::Patch,
    RollForward::LatestMajor,
    RollForward::LatestMinor,
    RollForward::LatestFeature,
    RollForward::LatestPatch,
    RollForward::Disable,
];

fn sdk(version: Option<&str>, policy: Option<RollForward>) -> GlobalJsonSdk {
    GlobalJsonSdk {
        version: version.map(|v| v.to_string()),
        allow_prerelease: None,
        roll_forward: policy,
    }
}

fn translate(version: Option<&str>, policy: Option<RollForward>) -> Result<String, ParseError> {
    sdk(version, policy)
        .to_version_spec()
        .map(|range| range.to_text())
}

fn host_matches(range: &str, version: &str) -> bool {
    semver::VersionReq::parse(&range.replace(' ', ","))
        .unwrap()
        .matches(&semver::Version::parse(version).unwrap())
}

#[test]
fn nothing_declared_means_any_version() {
    assert_eq!(translate(None, None), Ok(">=0.0.0".to_string()));
    assert_eq!(
        translate(None, None),
        translate(Some("0.0.0"), Some(RollForward::LatestMajor))
    );
    assert_eq!(
        sdk(None, None).to_version_spec(),
        Ok(VersionRange::AtLeast {
            minimum: "0.0.0".to_string()
        })
    );
    assert_eq!(GlobalJsonSdk::default().to_version_spec(), sdk(None, None).to_version_spec());
}

#[test]
fn policy_without_version_is_not_applied() {
    for policy in POLICIES {
        assert_eq!(translate(None, Some(policy)), Ok(">=0.0.0".to_string()));
    }
}

#[test]
fn version_without_policy_rolls_forward_to_latest_patch() {
    assert_eq!(
        translate(Some("8.0.101"), None),
        translate(Some("8.0.101"), Some(RollForward::LatestPatch))
    );
    assert_eq!(
        translate(Some("8.0.101"), None),
        Ok(">=8.0.101 <8.0.200".to_string())
    );
}

#[test]
fn feature_policy_gives_tilde_range() {
    let range = sdk(Some("8.0.0"), Some(RollForward::Feature))
        .to_version_spec()
        .unwrap();
    assert_eq!(range.to_text(), "~8.0.0");
    assert_eq!(
        range,
        VersionRange::SameMinor {
            minimum: "8.0.0".to_string()
        }
    );
    assert!(host_matches("~8.0.0", "8.0.0"));
    assert!(host_matches("~8.0.0", "8.0.305"));
    assert!(!host_matches("~8.0.0", "8.1.0"));
}

#[test]
fn each_policy_has_its_range() {
    let text = |policy| translate(Some("6.0.203"), Some(policy)).unwrap();
    assert_eq!(text(RollForward::Major), ">=6.0.203");
    assert_eq!(text(RollForward::LatestMajor), ">=6.0.203");
    assert_eq!(text(RollForward::Minor), "^6.0.203");
    assert_eq!(text(RollForward::LatestMinor), "^6.0.203");
    assert_eq!(text(RollForward::Feature), "~6.0.203");
    assert_eq!(text(RollForward::LatestFeature), "~6.0.203");
    assert_eq!(text(RollForward::Patch), ">=6.0.203 <6.0.300");
    assert_eq!(text(RollForward::LatestPatch), ">=6.0.203 <6.0.300");
    assert_eq!(text(RollForward::Disable), "6.0.203");
}

#[test]
fn patch_policy_on_a_round_hundred_ends_where_it_starts() {
    let range = sdk(Some("8.0.200"), Some(RollForward::Patch))
        .to_version_spec()
        .unwrap();
    assert_eq!(
        range,
        VersionRange::SameBand {
            minimum: "8.0.200".to_string(),
            end: BandEnd {
                major: 8,
                minor: 0,
                patch: 200
            },
        }
    );
    assert_eq!(range.to_text(), ">=8.0.200 <8.0.200");
    assert!(!host_matches(&range.to_text(), "8.0.200"));
    assert!(!host_matches(&range.to_text(), "8.0.201"));
    assert!(!host_matches(&range.to_text(), "8.0.199"));
}

#[test]
fn patch_policy_on_zero_ends_at_zero() {
    assert_eq!(
        translate(Some("8.0.0"), Some(RollForward::LatestPatch)),
        Ok(">=8.0.0 <8.0.0".to_string())
    );
}

#[test]
fn range_admits_its_minimum() {
    for minimum in ["8.0.101", "6.0.203", "3.1.426", "1.0.4", "8.0.100-rc.2.23502.2"] {
        for policy in POLICIES {
            let range = translate(Some(minimum), Some(policy)).unwrap();
            assert!(host_matches(&range, minimum), "{} in {}", minimum, range);
        }
    }
    for minimum in ["8.0.100", "8.0.0", "0.0.0"] {
        for policy in POLICIES {
            let range = translate(Some(minimum), Some(policy)).unwrap();
            let within_band = matches!(policy, RollForward::Patch | RollForward::LatestPatch);
            assert_eq!(host_matches(&range, minimum), !within_band);
        }
    }
}

#[test]
fn patch_policy_keeps_to_the_feature_band() {
    let range = translate(Some("8.0.204"), Some(RollForward::Patch)).unwrap();
    assert!(!host_matches(&range, "8.0.203"));
    assert!(host_matches(&range, "8.0.204"));
    assert!(host_matches(&range, "8.0.299"));
    assert!(!host_matches(&range, "8.0.300"));
    assert!(!host_matches(&range, "8.1.204"));
}

#[test]
fn patch_policy_needs_a_version() {
    for policy in [RollForward::Patch, RollForward::LatestPatch] {
        assert_eq!(
            translate(Some("eight"), Some(policy)),
            Err(ParseError::InvalidVersion("eight".to_string()))
        );
        assert_eq!(
            translate(Some("8.0"), Some(policy)),
            Err(ParseError::InvalidVersion("8.0".to_string()))
        );
    }
    assert_eq!(
        translate(Some(""), None),
        Err(ParseError::InvalidVersion("".to_string()))
    );
}

#[test]
fn unreadable_range_is_an_error() {
    assert_eq!(
        translate(Some("eight"), Some(RollForward::Major)),
        Err(ParseError::InvalidRange(">=eight".to_string()))
    );
    assert_eq!(
        translate(Some("8.0.x.1"), Some(RollForward::Feature)),
        Err(ParseError::InvalidRange("~8.0.x.1".to_string()))
    );
    assert_eq!(
        translate(Some("1.2.3.4"), Some(RollForward::Disable)),
        Err(ParseError::InvalidRange("1.2.3.4".to_string()))
    );
}

#[test]
fn alternatives_are_never_handed_to_the_host() {
    assert_eq!(
        translate(Some("1.0.0 || 2.0.0"), Some(RollForward::Disable)),
        Err(ParseError::InvalidRange("1.0.0 || 2.0.0".to_string()))
    );
    assert_eq!(
        translate(Some("1|2"), Some(RollForward::Major)),
        Err(ParseError::InvalidRange(">=1|2".to_string()))
    );
}

#[test]
fn band_end_beyond_64_bits_is_refused_by_the_host() {
    assert_eq!(
        translate(Some("1.0.18446744073709551615"), Some(RollForward::Patch)),
        Err(ParseError::InvalidRange(
            ">=1.0.18446744073709551615 <1.0.18446744073709551700".to_string()
        ))
    );
}

#[test]
fn partial_versions_pass_where_no_band_is_needed() {
    assert_eq!(
        translate(Some("8.0"), Some(RollForward::Minor)),
        Ok("^8.0".to_string())
    );
    assert_eq!(
        translate(Some("8"), Some(RollForward::Disable)),
        Ok("8".to_string())
    );
}

#[test]
fn plan_takes_the_parsed_minimum() {
    let parsed = Version::new(7, 0, 410);
    assert_eq!(
        VersionRange::plan(RangeKind::SameBand, "seven".to_string(), Some(&parsed)),
        Ok(VersionRange::SameBand {
            minimum: "seven".to_string(),
            end: BandEnd {
                major: 7,
                minor: 0,
                patch: 500
            },
        })
    );
    assert_eq!(
        VersionRange::plan(RangeKind::SameBand, "7.0.410".to_string(), None),
        Err(ParseError::InvalidVersion("7.0.410".to_string()))
    );
    assert_eq!(
        VersionRange::plan(RangeKind::Exact, "x".to_string(), None),
        Ok(VersionRange::Exact {
            minimum: "x".to_string()
        })
    );
    assert_eq!(
        VersionRange::plan(RangeKind::AtLeast, "x".to_string(), Some(&parsed)),
        Ok(VersionRange::AtLeast {
            minimum: "x".to_string()
        })
    );
}

#[test]
fn settle_goes_by_the_answer_of_the_host() {
    let range = VersionRange::SameMajor {
        minimum: "8.0.100".to_string(),
    };
    assert_eq!(range.clone().settle(true), Ok(range.clone()));
    assert_eq!(
        range.settle(false),
        Err(ParseError::InvalidRange("^8.0.100".to_string()))
    );
}

#[test]
fn range_accessors() {
    let range = VersionRange::SameBand {
        minimum: "8.0.101".to_string(),
        end: BandEnd {
            major: 8,
            minor: 0,
            patch: 200,
        },
    };
    assert_eq!(range.kind(), RangeKind::SameBand);
    assert_eq!(range.minimum(), "8.0.101");
    assert_eq!(range.to_text(), ">=8.0.101 <8.0.200");
    assert_eq!(range.clone().checked(), Ok(range));
}

#[test]
fn policy_names_are_exact() {
    let names = [
        "major",
        "minor",
        "feature",
        "patch",
        "latestMajor",
        "latestMinor",
        "latestFeature",
        "latestPatch",
        "disable",
    ];
    for (name, policy) in names.iter().zip(POLICIES) {
        assert_eq!(RollForward::from_name(name), Some(policy));
        assert_eq!(policy.name(), *name);
    }
    for name in ["Major", "latestmajor", "LatestMajor", "disabled", "", " major", "none"] {
        assert_eq!(RollForward::from_name(name), None);
    }
}

#[test]
fn policy_reach() {
    assert_eq!(RollForward::Major.reach(), RangeKind::AtLeast);
    assert_eq!(RollForward::LatestMinor.reach(), RangeKind::SameMajor);
    assert_eq!(RollForward::Feature.reach(), RangeKind::SameMinor);
    assert_eq!(RollForward::LatestPatch.reach(), RangeKind::SameBand);
    assert_eq!(RollForward::Disable.reach(), RangeKind::Exact);
}

#[test]
fn constraint_from_fields() {
    assert_eq!(
        GlobalJsonSdk::from_fields(Some("8.0.100".to_string()), Some(true), Some("latestMinor")),
        Some(GlobalJsonSdk {
            version: Some("8.0.100".to_string()),
            allow_prerelease: Some(true),
            roll_forward: Some(RollForward::LatestMinor),
        })
    );
    assert_eq!(
        GlobalJsonSdk::from_fields(None, None, None),
        Some(GlobalJsonSdk::default())
    );
    assert_eq!(
        GlobalJsonSdk::from_fields(Some("8.0.100".to_string()), None, Some("newest")),
        None
    );
}

#[test]
fn constraint_accessors() {
    assert_eq!(sdk(None, Some(RollForward::Disable)).policy(), RollForward::LatestMajor);
    assert_eq!(sdk(Some("1.0.0"), None).policy(), RollForward::LatestPatch);
    assert_eq!(sdk(Some("1.0.0"), Some(RollForward::Minor)).policy(), RollForward::Minor);
    assert_eq!(sdk(None, None).minimum(), "0.0.0");
    assert_eq!(sdk(Some("1.0.0"), None).minimum(), "1.0.0");
}

#[test]
fn allow_prerelease_changes_nothing() {
    let mut constraint = sdk(Some("8.0.101"), Some(RollForward::Feature));
    let plain = constraint.to_version_spec();
    constraint.allow_prerelease = Some(true);
    assert_eq!(constraint.to_version_spec(), plain);
    constraint.allow_prerelease = Some(false);
    assert_eq!(constraint.to_version_spec(), plain);
}

#[test]
fn version_file_is_global_json() {
    assert_eq!(detect_version_files(), vec!["global.json".to_string()]);
    assert!(is_version_file("global.json"));
    assert!(!is_version_file("GLOBAL.JSON"));
    assert!(!is_version_file("global.json5"));
}

#[test]
fn error_messages_name_the_text() {
    let error = ParseError::InvalidVersion("eight".to_string());
    assert_eq!(error.text(), "eight");
    assert_eq!(error.message(), "not a semantic version: eight");
    let error = ParseError::InvalidRange(">=eight".to_string());
    assert_eq!(error.text(), ">=eight");
    assert_eq!(error.message(), "not a version range: >=eight");
}
