//! The SDK constraint that a project declares in `global.json`, and its
//! translation into a version range.
//!
//! A project declares a minimum SDK version and a roll-forward policy that
//! says how far above it an SDK may lie. The host knows nothing of such
//! policies; it resolves version ranges, and always to the latest version
//! that a range admits. The translation therefore keeps only the reach of a
//! policy: `major` and `latestMajor` give the same range, and so on.

use vstd::prelude::*;
use crate::error::{ParseError, ParseErrorModel};
use crate::range::{lemma_range_admits_its_minimum, RangeKind, RangeModel, VersionRange};
use crate::text::str_equal;
use crate::version::{semver_reading, Version};

verus! {

/// How far above the declared version an SDK may lie.
#[derive(Debug, Clone, Copy, PartialEq, Eq)]
pub enum RollForward {
    Major,
    Minor,
    Feature,
    Patch,
    LatestMajor,
    LatestMinor,
    LatestFeature,
    LatestPatch,
    Disable,
}

/// The `sdk` object of `global.json`.
#[derive(Debug, Clone, PartialEq, Eq)]
pub struct GlobalJsonSdk {
    pub version: Option<String>,
    pub allow_prerelease: Option<bool>,
    pub roll_forward: Option<RollForward>,
}

/// The content of `global.json`.
#[derive(Debug, Clone, PartialEq, Eq)]
pub struct GlobalJson {
    pub sdk: Option<GlobalJsonSdk>,
}

/// The `sdk` object as a mathematical value.
pub ghost struct SdkModel {
    pub version: Option<Seq<char>>,
    pub allow_prerelease: Option<bool>,
    pub roll_forward: Option<RollForward>,
}

/// The content of `global.json` as a mathematical value.
pub ghost struct GlobalJsonModel {
    pub sdk: Option<SdkModel>,
}

impl View for GlobalJsonSdk {
    type V = SdkModel;

    open spec fn view(&self) -> SdkModel {
        SdkModel {
            version: match self.version {
                Some(text) => Some(text@),
                None => None,
            },
            allow_prerelease: self.allow_prerelease,
            roll_forward: self.roll_forward,
        }
    }
}

impl View for GlobalJson {
    type V = GlobalJsonModel;

    open spec fn view(&self) -> GlobalJsonModel {
        GlobalJsonModel {
            sdk: match self.sdk {
                Some(sdk) => Some(sdk@),
                None => None,
            },
        }
    }
}

/// The name of the file that declares the SDK of a project.
pub open spec fn version_file_name() -> Seq<char> {
    "global.json"@
}

/// The version that stands for "no version declared".
pub open spec fn baseline_text() -> Seq<char> {
    "0.0.0"@
}

impl RollForward {
    /// The name of the policy in `global.json`.
    pub open spec fn name_of(self) -> Seq<char> {
        match self {
            RollForward::Major => "major"@,
            RollForward::Minor => "minor"@,
            RollForward::Feature => "feature"@,
            RollForward::Patch => "patch"@,
            RollForward::LatestMajor => "latestMajor"@,
            RollForward::LatestMinor => "latestMinor"@,
            RollForward::LatestFeature => "latestFeature"@,
            RollForward::LatestPatch => "latestPatch"@,
            RollForward::Disable => "disable"@,
        }
    }

    /// The policy that a name stands for: the one whose name it is, letter
    /// for letter.
    pub open spec fn named(name: Seq<char>) -> Option<RollForward> {
        if name == RollForward::Major.name_of() {
            Some(RollForward::Major)
        } else if name == RollForward::Minor.name_of() {
            Some(RollForward::Minor)
        } else if name == RollForward::Feature.name_of() {
            Some(RollForward::Feature)
        } else if name == RollForward::Patch.name_of() {
            Some(RollForward::Patch)
        } else if name == RollForward::LatestMajor.name_of() {
            Some(RollForward::LatestMajor)
        } else if name == RollForward::LatestMinor.name_of() {
            Some(RollForward::LatestMinor)
        } else if name == RollForward::LatestFeature.name_of() {
            Some(RollForward::LatestFeature)
        } else if name == RollForward::LatestPatch.name_of() {
            Some(RollForward::LatestPatch)
        } else if name == RollForward::Disable.name_of() {
            Some(RollForward::Disable)
        } else {
            None
        }
    }

    /// The policy that picks the latest version within the same reach.
    pub open spec fn latest_of(self) -> RollForward {
        match self {
            RollForward::Major | RollForward::LatestMajor => RollForward::LatestMajor,
            RollForward::Minor | RollForward::LatestMinor => RollForward::LatestMinor,
            RollForward::Feature | RollForward::LatestFeature => RollForward::LatestFeature,
            RollForward::Patch | RollForward::LatestPatch => RollForward::LatestPatch,
            RollForward::Disable => RollForward::Disable,
        }
    }

    /// The form of range that the policy translates to.
    pub open spec fn reach_of(self) -> RangeKind {
        match self {
            RollForward::Major | RollForward::LatestMajor => RangeKind::AtLeast,
            RollForward::Minor | RollForward::LatestMinor => RangeKind::SameMajor,
            RollForward::Feature | RollForward::LatestFeature => RangeKind::SameMinor,
            RollForward::Patch | RollForward::LatestPatch => RangeKind::SameBand,
            RollForward::Disable => RangeKind::Exact,
        }
    }

    /// The name of the policy in `global.json`.
    pub fn name(&self) -> (name: &'static str)
        ensures
            name@ == self.name_of(),
    {
        match self {
            RollForward::Major => "major",
            RollForward::Minor => "minor",
            RollForward::Feature => "feature",
            RollForward::Patch => "patch",
            RollForward::LatestMajor => "latestMajor",
            RollForward::LatestMinor => "latestMinor",
            RollForward::LatestFeature => "latestFeature",
            RollForward::LatestPatch => "latestPatch",
            RollForward::Disable => "disable",
        }
    }

    /// Finds the policy that a name of `global.json` stands for. The case of
    /// the letters counts.
    pub fn from_name(name: &str) -> (r: Option<RollForward>)
        ensures
            r == RollForward::named(name@),
    {
        if str_equal(name, "major") {
            Some(RollForward::Major)
        } else if str_equal(name, "minor") {
            Some(RollForward::Minor)
        } else if str_equal(name, "feature") {
            Some(RollForward::Feature)
        } else if str_equal(name, "patch") {
            Some(RollForward::Patch)
        } else if str_equal(name, "latestMajor") {
            Some(RollForward::LatestMajor)
        } else if str_equal(name, "latestMinor") {
            Some(RollForward::LatestMinor)
        } else if str_equal(name, "latestFeature") {
            Some(RollForward::LatestFeature)
        } else if str_equal(name, "latestPatch") {
            Some(RollForward::LatestPatch)
        } else if str_equal(name, "disable") {
            Some(RollForward::Disable)
        } else {
            None
        }
    }

    /// The form of range that the policy translates to.
    pub fn reach(&self) -> (kind: RangeKind)
        ensures
            kind == self.reach_of(),
    {
        match self {
            RollForward::Major | RollForward::LatestMajor => RangeKind::AtLeast,
            RollForward::Minor | RollForward::LatestMinor => RangeKind::SameMajor,
            RollForward::Feature | RollForward::LatestFeature => RangeKind::SameMinor,
            RollForward::Patch | RollForward::LatestPatch => RangeKind::SameBand,
            RollForward::Disable => RangeKind::Exact,
        }
    }
}

impl SdkModel {
    /// The constraint that the fields of an `sdk` object declare: none
    /// where the policy has a name that is not one of the nine.
    pub open spec fn declared(
        version: Option<String>,
        allow_prerelease: Option<bool>,
        roll_forward: Option<&str>,
    ) -> Option<SdkModel> {
        let version = match version {
            Some(text) => Some(text@),
            None => None,
        };
        match roll_forward {
            None => Some(SdkModel { version, allow_prerelease, roll_forward: None }),
            Some(name) => match RollForward::named(name@) {
                Some(policy) => Some(
                    SdkModel { version, allow_prerelease, roll_forward: Some(policy) },
                ),
                None => None,
            },
        }
    }

    /// The policy that applies. Without a declared version it is
    /// `LatestMajor`, whatever was declared; with one, it is the declared
    /// policy, or `LatestPatch` where none was declared.
    pub open spec fn policy(self) -> RollForward {
        match self.version {
            Some(_) => match self.roll_forward {
                Some(policy) => policy,
                None => RollForward::LatestPatch,
            },
            None => RollForward::LatestMajor,
        }
    }

    /// The text of the minimum: the declared version, or `0.0.0`.
    pub open spec fn minimum(self) -> Seq<char> {
        match self.version {
            Some(text) => text,
            None => baseline_text(),
        }
    }

    /// The range that the constraint asks for, before the host has seen it.
    /// Only the range within a feature band reads the minimum as a version,
    /// and there is no such range where it is none.
    pub open spec fn planned(self) -> Option<RangeModel> {
        RangeModel::planned(self.policy().reach_of(), self.minimum(), semver_reading(self.minimum()))
    }

    /// The translation of the constraint: the planned range where the host
    /// can read it, and else the error that names the text at fault.
    pub open spec fn translation(self) -> Result<RangeModel, ParseErrorModel> {
        match self.planned() {
            Some(range) => range.settled(range.readable()),
            None => Err(ParseErrorModel::InvalidVersion(self.minimum())),
        }
    }
}

impl GlobalJsonModel {
    /// The constraint that the file declares; a file without an `sdk`
    /// object declares the empty one.
    pub open spec fn constraint(self) -> SdkModel {
        match self.sdk {
            Some(sdk) => sdk,
            None => SdkModel { version: None, allow_prerelease: None, roll_forward: None },
        }
    }
}

/// The range that a version file yields: that of `global.json` where its
/// content could be decoded and translates; no other file yields one.
pub open spec fn file_range(file: Seq<char>, content: Option<GlobalJsonModel>) -> Option<
    RangeModel,
> {
    if file != version_file_name() {
        None
    } else {
        match content {
            Some(global_json) => match global_json.constraint().translation() {
                Ok(range) => Some(range),
                Err(_) => None,
            },
            None => None,
        }
    }
}

impl Default for GlobalJsonSdk {
    fn default() -> (sdk: GlobalJsonSdk)
        ensures
            sdk@ == (SdkModel { version: None, allow_prerelease: None, roll_forward: None }),
    {
        GlobalJsonSdk { version: None, allow_prerelease: None, roll_forward: None }
    }
}

impl GlobalJsonSdk {
    /// Builds the constraint from the fields of the `sdk` object as they
    /// are written in the file. There is none where the name of the policy
    /// is not one of the nine.
    pub fn from_fields(
        version: Option<String>,
        allow_prerelease: Option<bool>,
        roll_forward: Option<&str>,
    ) -> (r: Option<GlobalJsonSdk>)
        ensures
            match r {
                Some(sdk) => SdkModel::declared(version, allow_prerelease, roll_forward) == Some(
                    sdk@,
                ),
                None => SdkModel::declared(version, allow_prerelease, roll_forward) is None,
            },
    {
        match roll_forward {
            None => Some(GlobalJsonSdk { version, allow_prerelease, roll_forward: None }),
            Some(name) => match RollForward::from_name(name) {
                Some(policy) => Some(
                    GlobalJsonSdk { version, allow_prerelease, roll_forward: Some(policy) },
                ),
                None => None,
            },
        }
    }

    /// The policy that applies to the constraint.
    pub fn policy(&self) -> (policy: RollForward)
        ensures
            policy == self@.policy(),
    {
        match &self.version {
            Some(_) => match self.roll_forward {
                Some(policy) => policy,
                None => RollForward::LatestPatch,
            },
            None => RollForward::LatestMajor,
        }
    }

    /// The text of the minimum: the declared version, or `0.0.0`.
    pub fn minimum(&self) -> (minimum: String)
        ensures
            minimum@ == self@.minimum(),
    {
        match &self.version {
            Some(text) => text.clone(),
            None => String::from_str("0.0.0"),
        }
    }

    /// Translates the constraint into a version range.
    ///
    /// The range is `>=min` for the major policies, `^min` for the minor
    /// ones, `~min` for the feature ones, `>=min <end` for the patch ones,
    /// where `end` is the end of the feature band of `min`, and `min`
    /// itself for `disable`. It fails for the patch policies where `min` is
    /// no version, and for every policy where the host cannot read the
    /// range or the range holds `|`.
    ///
    /// The range admits the version that `min` stands for, except within a
    /// feature band above a release whose third component is a multiple of
    /// one hundred, where it admits nothing.
    pub fn to_version_spec(&self) -> (r: Result<VersionRange, ParseError>)
        ensures
            match r {
                Ok(range) => self@.translation() == Ok::<RangeModel, ParseErrorModel>(range@),
                Err(e) => self@.translation() == Err::<RangeModel, ParseErrorModel>(e@),
            },
            r matches Ok(range) ==> (semver_reading(self@.minimum()) matches Some(min) ==> {
                ||| range@.admits(min, min)
                ||| range@ is SameBand && min.patch % 100 == 0 && min.pre.len() == 0
            }),
    {
        let kind = self.policy().reach();
        let minimum = self.minimum();
        let planned = match kind {
            RangeKind::SameBand => {
                let parsed = Version::parse(minimum.as_str());
                VersionRange::plan(kind, minimum, parsed.as_ref())
            },
            _ => VersionRange::plan(kind, minimum, None),
        };
        match planned {
            Ok(range) => {
                proof {
                    match semver_reading(self@.minimum()) {
                        Some(min) => {
                            if !(kind == RangeKind::SameBand && min.patch % 100 == 0
                                && min.pre.len() == 0) {
                                lemma_range_admits_its_minimum(kind, self@.minimum(), min);
                            }
                        },
                        None => {},
                    }
                }
                range.checked()
            },
            Err(e) => Err(e),
        }
    }
}

/// Tells whether a file declares the SDK of a project.
pub fn is_version_file(file: &str) -> (r: bool)
    ensures
        r == (file@ == version_file_name()),
{
    str_equal(file, "global.json")
}

/// The names of the files that declare the SDK of a project.
pub fn detect_version_files() -> (files: Vec<String>)
    ensures
        files@.len() == 1,
        files@[0]@ == version_file_name(),
{
    let mut files: Vec<String> = Vec::new();
    files.push(String::from_str("global.json"));
    files
}

/// Finds the version range that a version file asks for. `content` is the
/// decoded content of the file, or `None` where it could not be decoded.
/// Only `global.json` is read, and a constraint that does not translate
/// yields no range.
pub fn parse_version_file(file: &str, content: Option<GlobalJson>) -> (r: Option<VersionRange>)
    ensures
        match r {
            Some(range) => file_range(file@, model_of_content(content)) == Some(range@),
            None => file_range(file@, model_of_content(content)) is None,
        },
{
    if !is_version_file(file) {
        return None;
    }
    match content {
        Some(global_json) => {
            let sdk = match global_json.sdk {
                Some(sdk) => sdk,
                None => GlobalJsonSdk::default(),
            };
            match sdk.to_version_spec() {
                Ok(range) => Some(range),
                Err(_) => None,
            }
        },
        None => None,
    }
}

/// The mathematical value of a content that may be missing.
pub open spec fn model_of_content(content: Option<GlobalJson>) -> Option<GlobalJsonModel> {
    match content {
        Some(global_json) => Some(global_json@),
        None => None,
    }
}

/// A constraint without a declared version translates as the constraint
/// `0.0.0` with the policy `LatestMajor` does, whatever policy it declares:
/// to the range `>=0.0.0`, which has no upper bound.
pub proof fn lemma_absent_version_is_latest_major(sdk: SdkModel)
    requires
        sdk.version is None,
    ensures
        sdk.translation() == (SdkModel {
            version: Some(baseline_text()),
            allow_prerelease: sdk.allow_prerelease,
            roll_forward: Some(RollForward::LatestMajor),
        }).translation(),
        sdk.planned() == Some(RangeModel::AtLeast { minimum: baseline_text() }),
        sdk.planned()->0.text() == ">=0.0.0"@,
{
    reveal_strlit("0.0.0");
    reveal_strlit(">=0.0.0");
    assert(seq!['>', '='] + "0.0.0"@ =~= ">=0.0.0"@);
}

/// A policy and the one that picks the latest version within the same
/// reach translate alike: the host always resolves a range to the latest
/// version that it admits.
pub proof fn lemma_latest_policy_translates_alike(sdk: SdkModel, policy: RollForward)
    requires
        sdk.roll_forward == Some(policy),
    ensures
        sdk.translation() == (SdkModel {
            version: sdk.version,
            allow_prerelease: sdk.allow_prerelease,
            roll_forward: Some(policy.latest_of()),
        }).translation(),
{
}

/// The flag `allowPrerelease` has no part in the translation.
pub proof fn lemma_allow_prerelease_is_unused(sdk: SdkModel, flag: Option<bool>)
    ensures
        sdk.translation() == (SdkModel {
            version: sdk.version,
            allow_prerelease: flag,
            roll_forward: sdk.roll_forward,
        }).translation(),
{
}

} // verus!
