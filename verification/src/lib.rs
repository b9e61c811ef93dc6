//! Version resolution for the .NET SDK.
//!
//! The library turns what a project declares in `global.json` into a version
//! range, curates the list of known SDK versions from repository tags,
//! resolves the aliases `lts`, `sts` and `latest` against the release index,
//! and picks the download of a version for a platform.
//!
//! Reading a text as a semantic version is left to `semver`, and reading a
//! text as a version specification to the host's own parser. What they
//! return goes by the names `semver_reading` and `host_reading` in the
//! contracts.

pub mod catalog;
pub mod error;
pub mod global_json;
pub mod host;
pub mod install;
pub mod inventory;
pub mod range;
pub mod release_index;
pub mod text;
pub mod version;
