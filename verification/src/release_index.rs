//! The release index of the SDK: its channels and the builds of a channel,
//! how an alias picks a channel, and how a download is picked for a
//! platform.

use vstd::prelude::*;
use crate::error::{ParseError, ParseErrorModel};
use crate::text::{
    ends_with, eq_ignore_ascii_case, lemma_same_ignoring_ascii_case_is_equivalence,
    same_ignoring_ascii_case, str_equal,
};
use crate::version::{semver_reading, Version, VersionModel};

verus! {

/// A file of an SDK build.
#[derive(Debug, Clone, PartialEq, Eq)]
pub struct DotnetReleaseSdkFile {
    pub name: String,
    /// The runtime identifier that the file is built for. Some older builds
    /// leave it out.
    pub rid: Option<String>,
    pub url: String,
    pub hash: String,
}

/// An SDK build.
#[derive(Debug, Clone, PartialEq, Eq)]
pub struct DotnetReleaseSdk {
    /// The version of the build, such as `8.0.100` or
    /// `8.0.100-rc.2.23502.2`.
    pub version: String,
    /// The version as it is shown, such as `8.0.100-rc.2`.
    pub version_display: Option<String>,
    pub files: Vec<DotnetReleaseSdkFile>,
}

/// A release of the runtime with its SDK builds.
#[derive(Debug, Clone, PartialEq, Eq)]
pub struct DotnetRelease {
    /// The latest SDK build of the release.
    pub sdk: DotnetReleaseSdk,
    /// All SDK builds of the release, where the index lists them.
    pub sdks: Option<Vec<DotnetReleaseSdk>>,
}

/// The releases of one channel.
#[derive(Debug, Clone, PartialEq, Eq)]
pub struct DotnetReleasesJson {
    pub releases: Vec<DotnetRelease>,
}

/// A channel of the release index.
#[derive(Debug, Clone, PartialEq, Eq)]
pub struct DotnetReleasesIndex {
    pub channel_version: String,
    pub latest_sdk: String,
    pub release_type: String,
    /// Where the releases of the channel are listed.
    pub releases_json: String,
}

/// The release index: its channels, newest first.
#[derive(Debug, Clone, PartialEq, Eq)]
pub struct DotnetReleasesIndexJson {
    pub releases_index: Vec<DotnetReleasesIndex>,
}

/// An alias that stands for a channel.
#[derive(Debug, Clone, Copy, PartialEq, Eq)]
pub enum ChannelAlias {
    /// The newest channel with long-term support.
    Lts,
    /// The newest channel with standard-term support.
    Sts,
    /// The newest channel.
    Latest,
}

/// A file to download.
#[derive(Debug, Clone, PartialEq, Eq)]
pub struct DownloadAsset {
    pub url: String,
    pub filename: String,
}

/// No build of the requested version has a file for the platform.
#[derive(Debug, Clone, PartialEq, Eq)]
pub struct NoMatchingAsset {
    /// The runtime identifier that was looked for.
    pub rid: String,
}

impl NoMatchingAsset {
    /// The message that describes the failure; it names the runtime
    /// identifier that was looked for.
    pub open spec fn message_of(self) -> Seq<char> {
        "no SDK download for the runtime identifier "@ + self.rid@
    }

    /// Describes the failure for the user.
    pub fn message(&self) -> (message: String)
        ensures
            message@ == self.message_of(),
    {
        let mut message = String::from_str("no SDK download for the runtime identifier ");
        message.append(self.rid.as_str());
        message
    }
}

/// The alias that a text stands for; the case of its letters does not
/// count.
pub open spec fn alias_named(alias: Seq<char>) -> Option<ChannelAlias> {
    if same_ignoring_ascii_case(alias, "lts"@) {
        Some(ChannelAlias::Lts)
    } else if same_ignoring_ascii_case(alias, "sts"@) {
        Some(ChannelAlias::Sts)
    } else if same_ignoring_ascii_case(alias, "latest"@) {
        Some(ChannelAlias::Latest)
    } else {
        None
    }
}

impl ChannelAlias {
    /// The text of the alias.
    pub open spec fn name_of(self) -> Seq<char> {
        match self {
            ChannelAlias::Lts => "lts"@,
            ChannelAlias::Sts => "sts"@,
            ChannelAlias::Latest => "latest"@,
        }
    }

    /// Whether the alias can stand for the channel: the support aliases for
    /// a channel whose release type they name, `latest` for any.
    pub open spec fn fits(self, channel: DotnetReleasesIndex) -> bool {
        match self {
            ChannelAlias::Latest => true,
            _ => same_ignoring_ascii_case(channel.release_type@, self.name_of()),
        }
    }

    /// The place of the first channel that the alias can stand for, or the
    /// number of channels where there is none.
    pub open spec fn first_fit(self, channels: Seq<DotnetReleasesIndex>) -> nat
        decreases channels.len(),
    {
        if channels.len() == 0 || self.fits(channels[0]) {
            0
        } else {
            1 + self.first_fit(channels.drop_first())
        }
    }

    /// Finds the alias that a text stands for.
    pub fn from_name(alias: &str) -> (r: Option<ChannelAlias>)
        ensures
            r == alias_named(alias@),
    {
        if eq_ignore_ascii_case(alias, "lts") {
            Some(ChannelAlias::Lts)
        } else if eq_ignore_ascii_case(alias, "sts") {
            Some(ChannelAlias::Sts)
        } else if eq_ignore_ascii_case(alias, "latest") {
            Some(ChannelAlias::Latest)
        } else {
            None
        }
    }

    /// Tells whether the alias can stand for the channel.
    pub fn matches_channel(&self, channel: &DotnetReleasesIndex) -> (r: bool)
        ensures
            r == self.fits(*channel),
    {
        match self {
            ChannelAlias::Lts => eq_ignore_ascii_case(channel.release_type.as_str(), "lts"),
            ChannelAlias::Sts => eq_ignore_ascii_case(channel.release_type.as_str(), "sts"),
            ChannelAlias::Latest => true,
        }
    }

    /// Finds the first channel that the alias can stand for.
    pub fn select_channel(&self, channels: &Vec<DotnetReleasesIndex>) -> (r: Option<usize>)
        ensures
            match r {
                Some(i) => i < channels@.len() && i == self.first_fit(channels@),
                None => self.first_fit(channels@) == channels@.len(),
            },
            r matches Some(i) ==> self.fits(channels@[i as int]),
            forall|j: int| 0 <= j < self.first_fit(channels@) ==> !self.fits(#[trigger] channels@[j]),
    {
        let mut i: usize = 0;
        assert(channels@.skip(0) =~= channels@);
        while i < channels.len()
            invariant
                i <= channels@.len(),
                self.first_fit(channels@) == i + self.first_fit(channels@.skip(i as int)),
                forall|j: int| 0 <= j < i ==> !self.fits(#[trigger] channels@[j]),
            decreases channels@.len() - i,
        {
            if self.matches_channel(&channels[i]) {
                assert(channels@.skip(i as int)[0] == channels@[i as int]);
                return Some(i);
            }
            proof {
                let rest = channels@.skip(i as int);
                assert(rest[0] == channels@[i as int]);
                assert(rest.drop_first() =~= channels@.skip(i + 1));
            }
            i += 1;
        }
        assert(channels@.skip(i as int).len() == 0);
        None
    }
}

/// A support alias fits a channel exactly where the release type of the
/// channel matches the alias as it was typed, whatever the case of either.
pub proof fn lemma_alias_fits_as_typed(alias: Seq<char>, channel: DotnetReleasesIndex)
    requires
        alias_named(alias) is Some,
        alias_named(alias) != Some(ChannelAlias::Latest),
    ensures
        alias_named(alias)->0.fits(channel) <==> same_ignoring_ascii_case(
            channel.release_type@,
            alias,
        ),
{
    let name = alias_named(alias)->0.name_of();
    lemma_same_ignoring_ascii_case_is_equivalence(alias, name, channel.release_type@);
    lemma_same_ignoring_ascii_case_is_equivalence(channel.release_type@, alias, name);
    lemma_same_ignoring_ascii_case_is_equivalence(channel.release_type@, name, alias);
}

/// What the latest SDK of a channel resolves to, once its text has been
/// read: the version that it was read as, or the error that names the text.
pub open spec fn latest_sdk_of(channel: DotnetReleasesIndex, parsed: Option<VersionModel>) -> Result<
    Option<VersionModel>,
    ParseErrorModel,
> {
    match parsed {
        Some(version) => Ok(Some(version)),
        None => Err(ParseErrorModel::InvalidVersion(channel.latest_sdk@)),
    }
}

/// The version that an alias resolves to among the channels of a release
/// index: the latest SDK of the first channel that the alias can stand for.
/// A text that is no alias, or an alias that no channel fits, resolves to
/// nothing; a latest SDK that is no version is an error.
pub open spec fn resolution(alias: Seq<char>, channels: Seq<DotnetReleasesIndex>) -> Result<
    Option<VersionModel>,
    ParseErrorModel,
> {
    match alias_named(alias) {
        None => Ok(None),
        Some(known) => {
            let i = known.first_fit(channels) as int;
            if i >= channels.len() {
                Ok(None)
            } else {
                latest_sdk_of(channels[i], semver_reading(channels[i].latest_sdk@))
            }
        },
    }
}

impl DotnetReleasesIndex {
    /// Decides what the latest SDK of the channel resolves to. `parsed` is
    /// what its text was read as, or `None` where it is no version.
    pub fn latest_version(&self, parsed: Option<Version>) -> (r: Result<Option<Version>, ParseError>)
        ensures
            match r {
                Ok(Some(version)) => parsed == Some(version),
                Ok(None) => false,
                Err(e) => parsed is None && e@ == ParseErrorModel::InvalidVersion(
                    self.latest_sdk@,
                ),
            },
    {
        match parsed {
            Some(version) => Ok(Some(version)),
            None => Err(ParseError::InvalidVersion(self.latest_sdk.clone())),
        }
    }
}

/// Resolves an alias to the latest SDK version of the channel that it
/// stands for.
pub fn resolve_version(alias: &str, channels: &Vec<DotnetReleasesIndex>) -> (r: Result<
    Option<Version>,
    ParseError,
>)
    ensures
        match r {
            Ok(Some(version)) => resolution(alias@, channels@) == Ok::<
                Option<VersionModel>,
                ParseErrorModel,
            >(Some(version@)) && version@.reads_back(),
            Ok(None) => resolution(alias@, channels@) == Ok::<
                Option<VersionModel>,
                ParseErrorModel,
            >(None),
            Err(e) => resolution(alias@, channels@) == Err::<
                Option<VersionModel>,
                ParseErrorModel,
            >(e@),
        },
{
    match ChannelAlias::from_name(alias) {
        None => Ok(None),
        Some(known) => match known.select_channel(channels) {
            None => Ok(None),
            Some(i) => {
                let channel = &channels[i];
                channel.latest_version(Version::parse(channel.latest_sdk.as_str()))
            },
        },
    }
}

/// The runtime identifier of a platform: `os-arch`.
pub open spec fn runtime_identifier_of(os: Seq<char>, arch: Seq<char>) -> Seq<char> {
    os + seq!['-'] + arch
}

impl DotnetReleaseSdkFile {
    /// The file is the archive of the platform `rid`: it is built for that
    /// runtime identifier and its name ends in `extension`.
    pub open spec fn serves(self, rid: Seq<char>, extension: Seq<char>) -> bool {
        &&& self.rid matches Some(built_for) && built_for@ == rid
        &&& extension.is_suffix_of(self.name@)
    }

    /// Tells whether the file is the archive of the platform `rid`.
    pub fn is_for(&self, rid: &str, extension: &str) -> (r: bool)
        ensures
            r == self.serves(rid@, extension@),
    {
        match &self.rid {
            Some(built_for) => str_equal(built_for.as_str(), rid) && ends_with(
                self.name.as_str(),
                extension,
            ),
            None => false,
        }
    }
}

impl DotnetReleaseSdk {
    /// The place of the first file of the build that serves the platform,
    /// or the number of files where none does.
    pub open spec fn first_serving(
        files: Seq<DotnetReleaseSdkFile>,
        rid: Seq<char>,
        extension: Seq<char>,
    ) -> nat
        decreases files.len(),
    {
        if files.len() == 0 || files[0].serves(rid, extension) {
            0
        } else {
            1 + Self::first_serving(files.drop_first(), rid, extension)
        }
    }

    /// The download that the build offers for the platform, where it is a
    /// build of the version asked for: its first file that serves the
    /// platform.
    pub open spec fn offer(self, version: Seq<char>, rid: Seq<char>, extension: Seq<char>) -> Option<
        DotnetReleaseSdkFile,
    > {
        let i = Self::first_serving(self.files@, rid, extension) as int;
        if self.version@ == version && i < self.files@.len() {
            Some(self.files@[i])
        } else {
            None
        }
    }

    /// Finds the download that the build offers for the platform.
    pub fn find_asset(&self, version: &str, rid: &str, extension: &str) -> (r: Option<
        &DotnetReleaseSdkFile,
    >)
        ensures
            match r {
                Some(file) => self.offer(version@, rid@, extension@) == Some(*file),
                None => self.offer(version@, rid@, extension@) is None,
            },
    {
        if !str_equal(self.version.as_str(), version) {
            return None;
        }
        let mut i: usize = 0;
        assert(self.files@.skip(0) =~= self.files@);
        while i < self.files.len()
            invariant
                self.version@ == version@,
                i <= self.files@.len(),
                Self::first_serving(self.files@, rid@, extension@) == i + Self::first_serving(
                    self.files@.skip(i as int),
                    rid@,
                    extension@,
                ),
            decreases self.files@.len() - i,
        {
            if self.files[i].is_for(rid, extension) {
                assert(self.files@.skip(i as int)[0] == self.files@[i as int]);
                return Some(&self.files[i]);
            }
            proof {
                let rest = self.files@.skip(i as int);
                assert(rest[0] == self.files@[i as int]);
                assert(rest.drop_first() =~= self.files@.skip(i + 1));
            }
            i += 1;
        }
        assert(self.files@.skip(i as int).len() == 0);
        None
    }
}

impl DotnetRelease {
    /// The SDK builds of the release: those that it lists, or its latest
    /// build alone where it lists none.
    pub open spec fn builds(self) -> Seq<DotnetReleaseSdk> {
        match self.sdks {
            Some(sdks) => sdks@,
            None => seq![self.sdk],
        }
    }
}

/// The first download that a list of builds offers for the platform.
pub open spec fn first_offer(
    builds: Seq<DotnetReleaseSdk>,
    version: Seq<char>,
    rid: Seq<char>,
    extension: Seq<char>,
) -> Option<DotnetReleaseSdkFile>
    decreases builds.len(),
{
    if builds.len() == 0 {
        None
    } else {
        match builds[0].offer(version, rid, extension) {
            Some(file) => Some(file),
            None => first_offer(builds.drop_first(), version, rid, extension),
        }
    }
}

/// The first download that the releases of a channel offer for the
/// platform, release by release, and build by build within a release.
pub open spec fn first_release_offer(
    releases: Seq<DotnetRelease>,
    version: Seq<char>,
    rid: Seq<char>,
    extension: Seq<char>,
) -> Option<DotnetReleaseSdkFile>
    decreases releases.len(),
{
    if releases.len() == 0 {
        None
    } else {
        match first_offer(releases[0].builds(), version, rid, extension) {
            Some(file) => Some(file),
            None => first_release_offer(releases.drop_first(), version, rid, extension),
        }
    }
}

/// Writes the runtime identifier of a platform.
pub fn runtime_identifier(os: &str, arch: &str) -> (rid: String)
    ensures
        rid@ == runtime_identifier_of(os@, arch@),
{
    let mut rid = String::from_str(os);
    rid.append("-");
    rid.append(arch);
    proof {
        reveal_strlit("-");
        assert("-"@ =~= seq!['-']);
    }
    rid
}

/// Finds the first download among a list of builds.
fn find_among_builds<'a>(
    builds: &'a Vec<DotnetReleaseSdk>,
    version: &str,
    rid: &str,
    extension: &str,
) -> (r: Option<&'a DotnetReleaseSdkFile>)
    ensures
        match r {
            Some(file) => first_offer(builds@, version@, rid@, extension@) == Some(*file),
            None => first_offer(builds@, version@, rid@, extension@) is None,
        },
{
    let mut i: usize = 0;
    assert(builds@.skip(0) =~= builds@);
    while i < builds.len()
        invariant
            i <= builds@.len(),
            first_offer(builds@, version@, rid@, extension@) == first_offer(
                builds@.skip(i as int),
                version@,
                rid@,
                extension@,
            ),
        decreases builds@.len() - i,
    {
        proof {
            let rest = builds@.skip(i as int);
            assert(rest[0] == builds@[i as int]);
            assert(rest.drop_first() =~= builds@.skip(i + 1));
        }
        match builds[i].find_asset(version, rid, extension) {
            Some(file) => {
                return Some(file);
            },
            None => {},
        }
        i += 1;
    }
    assert(builds@.skip(i as int).len() == 0);
    None
}

/// Picks the download of an SDK version for a platform among the releases
/// of its channel: the first file, in the order of the index, of a build of
/// that version whose runtime identifier is `os-arch` and whose name ends in
/// `extension`. Where there is none, the error names the runtime
/// identifier that was looked for.
pub fn select_download_asset(
    releases: &DotnetReleasesJson,
    version: &str,
    os: &str,
    arch: &str,
    extension: &str,
) -> (r: Result<DownloadAsset, NoMatchingAsset>)
    ensures
        match first_release_offer(
            releases.releases@,
            version@,
            runtime_identifier_of(os@, arch@),
            extension@,
        ) {
            Some(file) => r matches Ok(asset) && asset.url@ == file.url@ && asset.filename@
                == file.name@,
            None => r matches Err(e) && e.rid@ == runtime_identifier_of(os@, arch@),
        },
{
    let rid = runtime_identifier(os, arch);
    let mut i: usize = 0;
    assert(releases.releases@.skip(0) =~= releases.releases@);
    while i < releases.releases.len()
        invariant
            i <= releases.releases@.len(),
            rid@ == runtime_identifier_of(os@, arch@),
            first_release_offer(releases.releases@, version@, rid@, extension@)
                == first_release_offer(
                releases.releases@.skip(i as int),
                version@,
                rid@,
                extension@,
            ),
        decreases releases.releases@.len() - i,
    {
        proof {
            let rest = releases.releases@.skip(i as int);
            assert(rest[0] == releases.releases@[i as int]);
            assert(rest.drop_first() =~= releases.releases@.skip(i + 1));
        }
        let release = &releases.releases[i];
        let found = match &release.sdks {
            Some(sdks) => find_among_builds(sdks, version, rid.as_str(), extension),
            None => {
                let offered = release.sdk.find_asset(version, rid.as_str(), extension);
                proof {
                    let single = seq![release.sdk];
                    assert(single[0] == release.sdk);
                    assert(first_offer(single.drop_first(), version@, rid@, extension@) is None);
                }
                offered
            },
        };
        match found {
            Some(file) => {
                return Ok(DownloadAsset { url: file.url.clone(), filename: file.name.clone() });
            },
            None => {},
        }
        i += 1;
    }
    assert(releases.releases@.skip(i as int).len() == 0);
    Err(NoMatchingAsset { rid })
}

} // verus!
