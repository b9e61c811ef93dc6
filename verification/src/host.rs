//! The host's reading of a text as a version specification.
//!
//! The host takes a text for the word `canary`, for an alias, for a version
//! requirement or for a full version, or refuses it. This library hands
//! version ranges to the host as texts and takes directory names for
//! versions as the host would, so it asks the host's own parser.

use vstd::prelude::*;
use proto_pdk::UnresolvedVersionSpec;
use crate::text::contains_char;
use crate::version::{Version, VersionModel};

verus! {

/// What the host reads a text as.
#[derive(Debug, Clone, PartialEq, Eq)]
pub enum HostSpec {
    /// The canary build.
    Canary,
    /// A word that stands for a version.
    Alias,
    /// A partial version or a range of versions.
    Requirement,
    /// A full version.
    Version(Version),
}

/// A `HostSpec` as a mathematical value.
pub ghost enum HostSpecModel {
    Canary,
    Alias,
    Requirement,
    Version(VersionModel),
}

impl View for HostSpec {
    type V = HostSpecModel;

    open spec fn view(&self) -> HostSpecModel {
        match self {
            HostSpec::Canary => HostSpecModel::Canary,
            HostSpec::Alias => HostSpecModel::Alias,
            HostSpec::Requirement => HostSpecModel::Requirement,
            HostSpec::Version(version) => HostSpecModel::Version(version@),
        }
    }
}

/// What the host reads a text as, or `None` where it refuses the text. It
/// names what `UnresolvedVersionSpec::parse` computes.
pub uninterp spec fn host_reading(text: Seq<char>) -> Option<HostSpecModel>;

/// What this library lets the host read: nothing where the text holds `|`.
/// The host would take such a text for a list of alternatives, which this
/// library never writes.
pub open spec fn guarded_reading(text: Seq<char>) -> Option<HostSpecModel> {
    if text.contains('|') {
        None
    } else {
        host_reading(text)
    }
}

/// Calls `UnresolvedVersionSpec::parse` and tells which variant came back,
/// with the fields of a full version as plain values. The contract claims
/// only that the outcome depends on the text alone. Texts that hold `|` are
/// left out: on `||` the parser sorts the alternatives by a comparison that
/// sums digits without a check and is no total order, and may panic there.
#[verifier::external_body]
fn host_parse(text: &str) -> (r: Option<HostSpec>)
    requires
        !text@.contains('|'),
    ensures
        r is Some == host_reading(text@) is Some,
        r matches Some(spec) ==> host_reading(text@) == Some(spec@),
{
    match UnresolvedVersionSpec::parse(text) {
        Ok(UnresolvedVersionSpec::Canary) => Some(HostSpec::Canary),
        Ok(UnresolvedVersionSpec::Alias(_)) => Some(HostSpec::Alias),
        Ok(UnresolvedVersionSpec::Req(_)) => Some(HostSpec::Requirement),
        Ok(UnresolvedVersionSpec::ReqAny(_)) => Some(HostSpec::Requirement),
        Ok(UnresolvedVersionSpec::Version(v)) => Some(HostSpec::Version(Version {
            major: v.major,
            minor: v.minor,
            patch: v.patch,
            pre: v.pre.as_str().to_owned(),
            build: v.build.as_str().to_owned(),
        })),
        Err(_) => None,
    }
}

/// Lets the host read a text, unless the text holds `|`.
pub fn read_spec(text: &str) -> (r: Option<HostSpec>)
    ensures
        r is Some == guarded_reading(text@) is Some,
        r matches Some(spec) ==> guarded_reading(text@) == Some(spec@),
{
    if contains_char(text, '|') {
        None
    } else {
        host_parse(text)
    }
}

} // verus!
