//! The SDK versions that are installed, as the names of the directories of
//! the SDK directory tell them.

use vstd::prelude::*;
use crate::host::{guarded_reading, read_spec, HostSpec, HostSpecModel};
use crate::version::{models_of, Version, VersionModel};

verus! {

/// The full version that a reading of the host holds, if it is one.
pub open spec fn version_in(reading: Option<HostSpecModel>) -> Option<VersionModel> {
    match reading {
        Some(HostSpecModel::Version(version)) => Some(version),
        _ => None,
    }
}

/// The version that a directory name stands for: the one that the host
/// reads the name as, where it reads it as a full version.
pub open spec fn version_named(name: Seq<char>) -> Option<VersionModel> {
    version_in(guarded_reading(name))
}

/// The versions that a list of directory names stands for, in the order of
/// the names.
pub open spec fn versions_named(names: Seq<String>) -> Seq<VersionModel>
    decreases names.len(),
{
    if names.len() == 0 {
        Seq::empty()
    } else {
        match version_named(names.last()@) {
            Some(version) => versions_named(names.drop_last()).push(version),
            None => versions_named(names.drop_last()),
        }
    }
}

/// Takes the full version out of a reading of the host. Anything but a
/// full version names no installed SDK.
pub fn full_version(reading: Option<HostSpec>) -> (r: Option<Version>)
    ensures
        match reading {
            Some(HostSpec::Version(version)) => r == Some(version),
            _ => r is None,
        },
{
    match reading {
        Some(HostSpec::Version(version)) => Some(version),
        _ => None,
    }
}

/// Finds the version that a directory name stands for.
pub fn installed_version(name: &str) -> (r: Option<Version>)
    ensures
        r is Some == version_named(name@) is Some,
        r matches Some(version) ==> version_named(name@) == Some(version@),
{
    full_version(read_spec(name))
}

/// Lists the versions that the directories of the SDK directory stand for.
/// There is no list where no directory stands for a version.
pub fn installed_versions(names: &Vec<String>) -> (r: Option<Vec<Version>>)
    ensures
        match r {
            Some(versions) => versions@.len() > 0 && models_of(versions@) == versions_named(
                names@,
            ),
            None => versions_named(names@).len() == 0,
        },
{
    let mut versions: Vec<Version> = Vec::new();
    let mut i: usize = 0;
    assert(names@.take(0) =~= Seq::<String>::empty());
    assert(models_of(versions@) =~= versions_named(names@.take(0)));
    while i < names.len()
        invariant
            i <= names@.len(),
            models_of(versions@) == versions_named(names@.take(i as int)),
        decreases names@.len() - i,
    {
        let found = installed_version(names[i].as_str());
        proof {
            let upto = names@.take(i + 1);
            assert(upto.last() == names@[i as int]);
            assert(upto.drop_last() =~= names@.take(i as int));
        }
        let ghost before = versions@;
        match found {
            Some(version) => {
                versions.push(version);
                assert(models_of(versions@) =~= models_of(before).push(version@));
            },
            None => {},
        }
        i += 1;
    }
    assert(names@.take(names@.len() as int) =~= names@);
    assert(models_of(versions@).len() == versions@.len());
    if versions.len() == 0 {
        None
    } else {
        Some(versions)
    }
}

} // verus!
