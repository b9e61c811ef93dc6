//! SDK versions: their text form, and the split of the third component into
//! a feature band and a patch number.
//!
//! An SDK version is written `major.minor.patch`, optionally followed by
//! `-` and a prerelease label and by `+` and build metadata. The third
//! component packs two numbers: `patch / 100` is the feature band and
//! `patch % 100` the patch number within that band, so `8.0.204` is patch 4
//! of feature band 2 of SDK 8.0.

use vstd::prelude::*;
use crate::text::{decimal, push_decimal};

verus! {

/// The number of patch numbers that one feature band holds.
pub const BAND_WIDTH: u64 = 100;

/// A version as a mathematical value.
pub ghost struct VersionModel {
    pub major: nat,
    pub minor: nat,
    pub patch: nat,
    pub pre: Seq<char>,
    pub build: Seq<char>,
}

/// A version: three numbers, a prerelease label and build metadata. An empty
/// label or empty metadata means that the version has none.
#[derive(Debug, Clone, PartialEq, Eq)]
pub struct Version {
    pub major: u64,
    pub minor: u64,
    pub patch: u64,
    pub pre: String,
    pub build: String,
}

/// The four numbers that an SDK version stands for.
#[derive(Debug, Clone, Copy, PartialEq, Eq)]
pub struct SdkParts {
    pub major: u64,
    pub minor: u64,
    pub feature_band: u64,
    pub patch_number: u64,
}

/// The exclusive upper end of a feature band. Its third component is kept in
/// 128 bits, since the end of the last band lies beyond 64 bits.
#[derive(Debug, Clone, Copy, PartialEq, Eq)]
pub struct BandEnd {
    pub major: u64,
    pub minor: u64,
    pub patch: u128,
}

/// The mathematical value of a `BandEnd`.
pub ghost struct BandEndModel {
    pub major: nat,
    pub minor: nat,
    pub patch: nat,
}

/// The result of reading a text as a semantic version: `Some` version where
/// the text is one, `None` where it is not. It names what `semver` computes.
pub uninterp spec fn semver_reading(text: Seq<char>) -> Option<VersionModel>;

/// The feature band that a third version component lies in.
pub open spec fn feature_band_of(patch: nat) -> nat {
    patch / 100
}

/// The patch number of a third version component within its feature band.
pub open spec fn patch_number_of(patch: nat) -> nat {
    patch % 100
}

/// A third version component rounded up to a multiple of one hundred. A
/// component that is a multiple of one hundred already is its own ceiling.
pub open spec fn band_ceiling(patch: nat) -> nat {
    ((patch + 99) / 100) * 100
}

/// The text `major.minor.patch` in decimal numerals.
pub open spec fn triple_text(major: nat, minor: nat, patch: nat) -> Seq<char> {
    decimal(major) + seq!['.'] + decimal(minor) + seq!['.'] + decimal(patch)
}

impl VersionModel {
    /// The text form: the three numbers, then `-` and the prerelease label
    /// if there is one, then `+` and the build metadata if there is any.
    pub open spec fn text(self) -> Seq<char> {
        triple_text(self.major, self.minor, self.patch) + (if self.pre.len() > 0 {
            seq!['-'] + self.pre
        } else {
            Seq::<char>::empty()
        }) + (if self.build.len() > 0 {
            seq!['+'] + self.build
        } else {
            Seq::<char>::empty()
        })
    }

    /// The version reads back as itself from its own text form.
    pub open spec fn reads_back(self) -> bool {
        semver_reading(self.text()) == Some(self)
    }

    /// The exclusive upper end of the feature band, for rolling forward to
    /// later patches only: same major and minor, third component rounded up
    /// to a multiple of one hundred.
    pub open spec fn band_end(self) -> BandEndModel {
        BandEndModel { major: self.major, minor: self.minor, patch: band_ceiling(self.patch) }
    }
}

impl BandEndModel {
    /// The text form `major.minor.patch`.
    pub open spec fn text(self) -> Seq<char> {
        triple_text(self.major, self.minor, self.patch)
    }
}

impl View for BandEnd {
    type V = BandEndModel;

    open spec fn view(&self) -> BandEndModel {
        BandEndModel { major: self.major as nat, minor: self.minor as nat, patch: self.patch as nat }
    }
}

impl View for Version {
    type V = VersionModel;

    open spec fn view(&self) -> VersionModel {
        VersionModel {
            major: self.major as nat,
            minor: self.minor as nat,
            patch: self.patch as nat,
            pre: self.pre@,
            build: self.build@,
        }
    }
}

/// The mathematical values of a list of versions.
pub open spec fn models_of(versions: Seq<Version>) -> Seq<VersionModel> {
    Seq::new(versions.len(), |i: int| versions[i]@)
}

/// Calls `semver::Version::parse` and hands its fields out as plain values.
/// The contract claims that the call's outcome depends on the text alone,
/// and that a text which is accepted is exactly the text form of the version
/// read from it: the parser takes no leading zeros, signs or spaces, keeps
/// the prerelease label and the build metadata as written, and takes a `-`
/// or `+` only with a label or metadata behind it.
#[verifier::external_body]
fn semver_parse(text: &str) -> (r: Option<Version>)
    ensures
        r is Some == semver_reading(text@) is Some,
        r matches Some(v) ==> semver_reading(text@) == Some(v@) && v@.text() == text@,
{
    match semver::Version::parse(text) {
        Ok(v) => Some(
            Version {
                major: v.major,
                minor: v.minor,
                patch: v.patch,
                pre: v.pre.as_str().to_owned(),
                build: v.build.as_str().to_owned(),
            },
        ),
        Err(_) => None,
    }
}

impl BandEnd {
    /// Writes the band end as `major.minor.patch`.
    pub fn to_text(&self) -> (s: String)
        ensures
            s@ == self@.text(),
    {
        let mut s = String::new();
        push_decimal(&mut s, self.major as u128);
        s.append(".");
        push_decimal(&mut s, self.minor as u128);
        s.append(".");
        push_decimal(&mut s, self.patch);
        proof {
            reveal_strlit(".");
            assert(".".view() =~= seq!['.']);
            assert(s@ =~= self@.text());
        }
        s
    }
}

impl Version {
    /// A version of three numbers, without prerelease label or build
    /// metadata.
    pub fn new(major: u64, minor: u64, patch: u64) -> (v: Version)
        ensures
            v@ == (VersionModel {
                major: major as nat,
                minor: minor as nat,
                patch: patch as nat,
                pre: Seq::<char>::empty(),
                build: Seq::<char>::empty(),
            }),
    {
        Version { major, minor, patch, pre: String::new(), build: String::new() }
    }

    /// Reads a text as a semantic version. The version that comes back has
    /// the text as its text form, and so reads back as itself.
    pub fn parse(text: &str) -> (r: Option<Version>)
        ensures
            r is Some == semver_reading(text@) is Some,
            r matches Some(v) ==> semver_reading(text@) == Some(v@) && v@.text() == text@
                && v@.reads_back(),
    {
        semver_parse(text)
    }

    /// Writes the version in its text form.
    pub fn to_text(&self) -> (s: String)
        ensures
            s@ == self@.text(),
    {
        let mut s = String::new();
        push_decimal(&mut s, self.major as u128);
        s.append(".");
        push_decimal(&mut s, self.minor as u128);
        s.append(".");
        push_decimal(&mut s, self.patch as u128);
        if !self.pre.as_str().is_empty() {
            s.append("-");
            s.append(self.pre.as_str());
        }
        if !self.build.as_str().is_empty() {
            s.append("+");
            s.append(self.build.as_str());
        }
        proof {
            reveal_strlit(".");
            reveal_strlit("-");
            reveal_strlit("+");
            assert(".".view() =~= seq!['.']);
            assert("-".view() =~= seq!['-']);
            assert("+".view() =~= seq!['+']);
            assert(s@ =~= self@.text());
        }
        s
    }

    /// A copy of the version.
    pub fn duplicate(&self) -> (v: Version)
        ensures
            v@ == self@,
    {
        Version {
            major: self.major,
            minor: self.minor,
            patch: self.patch,
            pre: self.pre.clone(),
            build: self.build.clone(),
        }
    }

    /// Tells whether two versions are the same in every field.
    pub fn same_as(&self, other: &Version) -> (r: bool)
        ensures
            r == (self@ == other@),
    {
        self.major == other.major && self.minor == other.minor && self.patch == other.patch
            && self.pre == other.pre && self.build == other.build
    }

    /// Tells whether the version carries a prerelease label.
    pub fn is_prerelease(&self) -> (r: bool)
        ensures
            r == (self@.pre.len() > 0),
    {
        !self.pre.as_str().is_empty()
    }

    /// The feature band of the version.
    pub fn feature_band(&self) -> (band: u64)
        ensures
            band == feature_band_of(self@.patch),
    {
        self.patch / BAND_WIDTH
    }

    /// The patch number of the version within its feature band.
    pub fn patch_number(&self) -> (number: u64)
        ensures
            number == patch_number_of(self@.patch),
            number < 100,
    {
        self.patch % BAND_WIDTH
    }

    /// Splits the version into major, minor, feature band and patch number.
    pub fn decompose(&self) -> (parts: SdkParts)
        ensures
            parts.major == self@.major,
            parts.minor == self@.minor,
            parts.feature_band == feature_band_of(self@.patch),
            parts.patch_number == patch_number_of(self@.patch),
            parts.patch_number < 100,
            parts.feature_band * 100 + parts.patch_number == self@.patch,
    {
        SdkParts {
            major: self.major,
            minor: self.minor,
            feature_band: self.patch / BAND_WIDTH,
            patch_number: self.patch % BAND_WIDTH,
        }
    }

    /// The exclusive upper bound for rolling forward within the feature
    /// band of this version.
    pub fn band_end(&self) -> (end: BandEnd)
        ensures
            end@ == self@.band_end(),
    {
        let patch: u128 = self.patch as u128;
        BandEnd { major: self.major, minor: self.minor, patch: ((patch + 99) / 100) * 100 }
    }
}

/// The ceiling of a third version component is a multiple of one hundred,
/// lies less than one hundred above the component, and equals the component
/// exactly where that is a multiple of one hundred itself.
pub proof fn lemma_band_ceiling(patch: nat)
    ensures
        band_ceiling(patch) % 100 == 0,
        patch <= band_ceiling(patch) < patch + 100,
        patch % 100 == 0 <==> band_ceiling(patch) == patch,
{
}

/// No multiple of one hundred lies between a third version component and
/// its ceiling.
pub proof fn lemma_band_ceiling_is_least(patch: nat, m: nat)
    requires
        m % 100 == 0,
        patch <= m,
    ensures
        band_ceiling(patch) <= m,
{
    assert(m == (m / 100) * 100);
    if m / 100 < (patch + 99) / 100 {
        assert(((m / 100) + 1) * 100 <= patch + 99);
    }
}

} // verus!
