//! Version ranges in the host's constraint syntax: their text, what they
//! admit, and whether the host can read them.
//!
//! A range is made for a minimum, the version text that a project declares.
//! Five forms exist: `>=min`, `^min`, `~min`, `>=min <end` and the bare
//! `min`. This module builds and writes them; it never matches a version
//! against a range at run time: that is the host's work.
//!
//! `RangeModel::admits` states what the roll-forward policies mean a range
//! to admit, so that the laws of the translation can be proved. It is not
//! the host's matcher, which is stricter in two places: under `^min` with a
//! major version of zero the host keeps to the minor version of `min` as
//! well, and it admits a prerelease only where the range names a prerelease
//! of the same major, minor and patch. On a range and its own minimum the
//! two agree.

use vstd::prelude::*;
use crate::error::{ParseError, ParseErrorModel};
use crate::host::{guarded_reading, read_spec};
use crate::version::{lemma_band_ceiling, BandEnd, BandEndModel, Version, VersionModel};

verus! {

/// The form of a range: how far above its minimum it reaches.
#[derive(Debug, Clone, Copy, PartialEq, Eq)]
pub enum RangeKind {
    /// Any version from the minimum on.
    AtLeast,
    /// From the minimum on, within its major version.
    SameMajor,
    /// From the minimum on, within its major and minor version.
    SameMinor,
    /// From the minimum on, below the end of its feature band.
    SameBand,
    /// The minimum and nothing else.
    Exact,
}

/// A version range.
#[derive(Debug, Clone, PartialEq, Eq)]
pub enum VersionRange {
    /// `>=minimum`
    AtLeast { minimum: String },
    /// `^minimum`
    SameMajor { minimum: String },
    /// `~minimum`
    SameMinor { minimum: String },
    /// `>=minimum <end`
    SameBand { minimum: String, end: BandEnd },
    /// `minimum`
    Exact { minimum: String },
}

/// A version range as a mathematical value.
pub ghost enum RangeModel {
    AtLeast { minimum: Seq<char> },
    SameMajor { minimum: Seq<char> },
    SameMinor { minimum: Seq<char> },
    SameBand { minimum: Seq<char>, end: BandEndModel },
    Exact { minimum: Seq<char> },
}

impl View for VersionRange {
    type V = RangeModel;

    open spec fn view(&self) -> RangeModel {
        match self {
            VersionRange::AtLeast { minimum } => RangeModel::AtLeast { minimum: minimum@ },
            VersionRange::SameMajor { minimum } => RangeModel::SameMajor { minimum: minimum@ },
            VersionRange::SameMinor { minimum } => RangeModel::SameMinor { minimum: minimum@ },
            VersionRange::SameBand { minimum, end } => RangeModel::SameBand {
                minimum: minimum@,
                end: end@,
            },
            VersionRange::Exact { minimum } => RangeModel::Exact { minimum: minimum@ },
        }
    }
}

/// The mathematical value of a version that may be missing.
pub open spec fn model_of(version: Option<&Version>) -> Option<VersionModel> {
    match version {
        Some(v) => Some(v@),
        None => None,
    }
}

/// The length of the first dot-separated identifier of a prerelease label.
pub open spec fn head_len(label: Seq<char>) -> nat
    decreases label.len(),
{
    if label.len() == 0 || label[0] == '.' {
        0
    } else {
        1 + head_len(label.drop_first())
    }
}

/// An identifier that is made of digits only.
pub open spec fn is_numeral(identifier: Seq<char>) -> bool {
    &&& identifier.len() > 0
    &&& forall|i: int| 0 <= i < identifier.len() ==> '0' <= #[trigger] identifier[i] <= '9'
}

/// The order of two texts by their first differing character; a proper
/// prefix comes first.
pub open spec fn chars_precede(a: Seq<char>, b: Seq<char>) -> bool
    decreases a.len(),
{
    if b.len() == 0 {
        false
    } else if a.len() == 0 {
        true
    } else if a[0] != b[0] {
        a[0] < b[0]
    } else {
        chars_precede(a.drop_first(), b.drop_first())
    }
}

/// The order of two identifiers of a prerelease label: numerals by their
/// value, a numeral before any other identifier, the others by their
/// characters.
pub open spec fn identifier_precedes(a: Seq<char>, b: Seq<char>) -> bool {
    if is_numeral(a) && is_numeral(b) {
        a.len() < b.len() || (a.len() == b.len() && chars_precede(a, b))
    } else if is_numeral(a) {
        true
    } else if is_numeral(b) {
        false
    } else {
        chars_precede(a, b)
    }
}

/// The order of two prerelease labels, identifier by identifier; where one
/// label runs out first, it precedes the other.
pub open spec fn label_precedes(p: Seq<char>, q: Seq<char>) -> bool
    decreases p.len(),
{
    let i = head_len(p) as int;
    let j = head_len(q) as int;
    if p.take(i) != q.take(j) {
        identifier_precedes(p.take(i), q.take(j))
    } else if i >= p.len() {
        j < q.len()
    } else if j >= q.len() {
        false
    } else {
        label_precedes(p.skip(i + 1), q.skip(j + 1))
    }
}

impl VersionModel {
    /// Two versions that no range tells apart: they differ in build
    /// metadata at most.
    pub open spec fn same_precedence(self, other: VersionModel) -> bool {
        &&& self.major == other.major
        &&& self.minor == other.minor
        &&& self.patch == other.patch
        &&& self.pre == other.pre
    }

    /// The precedence of semantic versions: by major, minor and patch; on
    /// equal numbers a prerelease precedes the release, and two prereleases
    /// go by their labels.
    pub open spec fn precedes(self, other: VersionModel) -> bool {
        if self.major != other.major {
            self.major < other.major
        } else if self.minor != other.minor {
            self.minor < other.minor
        } else if self.patch != other.patch {
            self.patch < other.patch
        } else if self.pre.len() == 0 {
            false
        } else if other.pre.len() == 0 {
            true
        } else {
            label_precedes(self.pre, other.pre)
        }
    }

    /// The version is `other` or a later one.
    pub open spec fn at_least(self, other: VersionModel) -> bool {
        self.same_precedence(other) || other.precedes(self)
    }

    /// The version lies below the end of a feature band.
    pub open spec fn below(self, end: BandEndModel) -> bool {
        self.precedes(
            VersionModel {
                major: end.major,
                minor: end.minor,
                patch: end.patch,
                pre: Seq::<char>::empty(),
                build: Seq::<char>::empty(),
            },
        )
    }
}

impl RangeModel {
    /// The form of the range.
    pub open spec fn kind(self) -> RangeKind {
        match self {
            RangeModel::AtLeast { .. } => RangeKind::AtLeast,
            RangeModel::SameMajor { .. } => RangeKind::SameMajor,
            RangeModel::SameMinor { .. } => RangeKind::SameMinor,
            RangeModel::SameBand { .. } => RangeKind::SameBand,
            RangeModel::Exact { .. } => RangeKind::Exact,
        }
    }

    /// The declared text that the range was made for.
    pub open spec fn minimum(self) -> Seq<char> {
        match self {
            RangeModel::AtLeast { minimum } => minimum,
            RangeModel::SameMajor { minimum } => minimum,
            RangeModel::SameMinor { minimum } => minimum,
            RangeModel::SameBand { minimum, .. } => minimum,
            RangeModel::Exact { minimum } => minimum,
        }
    }

    /// The range in the host's constraint syntax.
    pub open spec fn text(self) -> Seq<char> {
        match self {
            RangeModel::AtLeast { minimum } => seq!['>', '='] + minimum,
            RangeModel::SameMajor { minimum } => seq!['^'] + minimum,
            RangeModel::SameMinor { minimum } => seq!['~'] + minimum,
            RangeModel::SameBand { minimum, end } => seq!['>', '='] + minimum + seq![' ', '<']
                + end.text(),
            RangeModel::Exact { minimum } => minimum,
        }
    }

    /// Whether the policy behind the range means it to admit the version
    /// `v`, where `min` is the version that the minimum of the range stands
    /// for: `>=` takes `min` and what follows it, `^` keeps to the major
    /// version of `min` besides, `~` to its major and minor version, the
    /// range within a feature band stops short of the band end, and the bare
    /// minimum admits `min` alone.
    ///
    /// This is the intent of the policies, not the matcher of the host. The
    /// host admits less in two places. Under `^0.2.3` it stops below
    /// `0.3.0`, where this admits `0.3.0`. And it takes a prerelease only
    /// where the range names one of the same major, minor and patch, so
    /// under `>=8.0.100` it refuses `9.0.0-rc.1`, which this admits. For
    /// `v == min` the two agree.
    pub open spec fn admits(self, min: VersionModel, v: VersionModel) -> bool {
        match self {
            RangeModel::AtLeast { .. } => v.at_least(min),
            RangeModel::SameMajor { .. } => v.major == min.major && v.at_least(min),
            RangeModel::SameMinor { .. } => v.major == min.major && v.minor == min.minor
                && v.at_least(min),
            RangeModel::SameBand { end, .. } => v.at_least(min) && v.below(end),
            RangeModel::Exact { .. } => v.same_precedence(min),
        }
    }

    /// The range is the one that the form `kind` asks for above the
    /// minimum, which reads as the version `parsed` where it is one. A
    /// range within a feature band ends at the band end of that version, so
    /// there is none where the minimum is no version.
    pub open spec fn planned(
        kind: RangeKind,
        minimum: Seq<char>,
        parsed: Option<VersionModel>,
    ) -> Option<RangeModel> {
        match kind {
            RangeKind::AtLeast => Some(RangeModel::AtLeast { minimum }),
            RangeKind::SameMajor => Some(RangeModel::SameMajor { minimum }),
            RangeKind::SameMinor => Some(RangeModel::SameMinor { minimum }),
            RangeKind::SameBand => match parsed {
                Some(v) => Some(RangeModel::SameBand { minimum, end: v.band_end() }),
                None => None,
            },
            RangeKind::Exact => Some(RangeModel::Exact { minimum }),
        }
    }

    /// The host can read the text of the range. A text that holds `|` is
    /// never handed to the host: it would read it as a list of
    /// alternatives, which none of the five forms is.
    pub open spec fn readable(self) -> bool {
        guarded_reading(self.text()) is Some
    }

    /// What comes of a range once the host has said whether it can read it.
    pub open spec fn settled(self, accepted: bool) -> Result<RangeModel, ParseErrorModel> {
        if accepted {
            Ok(self)
        } else {
            Err(ParseErrorModel::InvalidRange(self.text()))
        }
    }
}

impl VersionRange {
    /// Builds the range of the form `kind` above `minimum`. `parsed` is the
    /// version that the minimum was read as, or `None` where it is no
    /// version; only the range within a feature band depends on it, and
    /// fails without it.
    pub fn plan(kind: RangeKind, minimum: String, parsed: Option<&Version>) -> (r: Result<
        VersionRange,
        ParseError,
    >)
        ensures
            match r {
                Ok(range) => RangeModel::planned(kind, minimum@, model_of(parsed))
                    == Some(range@),
                Err(e) => RangeModel::planned(kind, minimum@, model_of(parsed))
                    is None && e@ == ParseErrorModel::InvalidVersion(minimum@),
            },
    {
        match kind {
            RangeKind::AtLeast => Ok(VersionRange::AtLeast { minimum }),
            RangeKind::SameMajor => Ok(VersionRange::SameMajor { minimum }),
            RangeKind::SameMinor => Ok(VersionRange::SameMinor { minimum }),
            RangeKind::SameBand => match parsed {
                Some(v) => Ok(VersionRange::SameBand { minimum, end: v.band_end() }),
                None => Err(ParseError::InvalidVersion(minimum)),
            },
            RangeKind::Exact => Ok(VersionRange::Exact { minimum }),
        }
    }

    /// The form of the range.
    pub fn kind(&self) -> (kind: RangeKind)
        ensures
            kind == self@.kind(),
    {
        match self {
            VersionRange::AtLeast { .. } => RangeKind::AtLeast,
            VersionRange::SameMajor { .. } => RangeKind::SameMajor,
            VersionRange::SameMinor { .. } => RangeKind::SameMinor,
            VersionRange::SameBand { .. } => RangeKind::SameBand,
            VersionRange::Exact { .. } => RangeKind::Exact,
        }
    }

    /// The declared text that the range was made for.
    pub fn minimum(&self) -> (minimum: &str)
        ensures
            minimum@ == self@.minimum(),
    {
        match self {
            VersionRange::AtLeast { minimum } => minimum.as_str(),
            VersionRange::SameMajor { minimum } => minimum.as_str(),
            VersionRange::SameMinor { minimum } => minimum.as_str(),
            VersionRange::SameBand { minimum, .. } => minimum.as_str(),
            VersionRange::Exact { minimum } => minimum.as_str(),
        }
    }

    /// Writes the range in the host's constraint syntax.
    pub fn to_text(&self) -> (text: String)
        ensures
            text@ == self@.text(),
    {
        proof {
            reveal_strlit(">=");
            reveal_strlit("^");
            reveal_strlit("~");
            reveal_strlit(" <");
        }
        let mut text = String::new();
        match self {
            VersionRange::AtLeast { minimum } => {
                text.append(">=");
                text.append(minimum.as_str());
                assert(text@ =~= self@.text());
            },
            VersionRange::SameMajor { minimum } => {
                text.append("^");
                text.append(minimum.as_str());
                assert(text@ =~= self@.text());
            },
            VersionRange::SameMinor { minimum } => {
                text.append("~");
                text.append(minimum.as_str());
                assert(text@ =~= self@.text());
            },
            VersionRange::SameBand { minimum, end } => {
                text.append(">=");
                text.append(minimum.as_str());
                text.append(" <");
                let end_text = end.to_text();
                text.append(end_text.as_str());
                assert(text@ =~= self@.text());
            },
            VersionRange::Exact { minimum } => {
                text.append(minimum.as_str());
                assert(text@ =~= self@.text());
            },
        }
        text
    }

    /// Decides what comes of the range, given whether the host can read
    /// its text: the range itself, or the error that names the text.
    pub fn settle(self, accepted: bool) -> (r: Result<VersionRange, ParseError>)
        ensures
            match r {
                Ok(range) => self@.settled(accepted) == Ok::<RangeModel, ParseErrorModel>(range@),
                Err(e) => self@.settled(accepted) == Err::<RangeModel, ParseErrorModel>(e@),
            },
    {
        if accepted {
            Ok(self)
        } else {
            let text = self.to_text();
            Err(ParseError::InvalidRange(text))
        }
    }

    /// Asks the host whether it can read the range, and hands the range
    /// back where it can.
    pub fn checked(self) -> (r: Result<VersionRange, ParseError>)
        ensures
            match r {
                Ok(range) => self@.settled(self@.readable()) == Ok::<RangeModel, ParseErrorModel>(
                    range@,
                ),
                Err(e) => self@.settled(self@.readable()) == Err::<RangeModel, ParseErrorModel>(
                    e@,
                ),
            },
    {
        let text = self.to_text();
        let accepted = read_spec(text.as_str()).is_some();
        self.settle(accepted)
    }
}

/// A range admits the version that its minimum stands for. The one
/// exception is the range within a feature band above a release whose
/// third component is a multiple of one hundred: the band ends where it
/// starts.
pub proof fn lemma_range_admits_its_minimum(kind: RangeKind, minimum: Seq<char>, min: VersionModel)
    requires
        !(kind == RangeKind::SameBand && min.patch % 100 == 0 && min.pre.len() == 0),
    ensures
        RangeModel::planned(kind, minimum, Some(min)) matches Some(range) && range.admits(
            min,
            min,
        ),
{
    lemma_band_ceiling(min.patch);
}

/// The range within a feature band above a release whose third component
/// is a multiple of one hundred admits no version at all.
pub proof fn lemma_round_band_is_empty(minimum: Seq<char>, min: VersionModel, v: VersionModel)
    requires
        min.patch % 100 == 0,
        min.pre.len() == 0,
    ensures
        RangeModel::planned(RangeKind::SameBand, minimum, Some(min)) matches Some(range)
            && !range.admits(min, v),
{
    lemma_band_ceiling(min.patch);
}

} // verus!
