//! The catalog of known SDK versions, curated from the tags of the source
//! repository and from a list of versions that are older than its tags.
//!
//! A tag names a version where it is a semantic version, with or without a
//! leading `v`. A version is listed where it is a release, a preview or a
//! release candidate; the builds in between, such as nightly ones, are
//! noise. The catalog is a set in the order of its sources: a version that
//! several entries name is listed once, where the first of them stands.

use vstd::prelude::*;
use crate::text::{ends_with, starts_with};
use crate::version::{models_of, semver_reading, Version, VersionModel};

verus! {

/// Why a tag or a version text is not listed.
#[derive(Debug, Clone, Copy, PartialEq, Eq)]
pub enum Rejection {
    /// Nothing is left of the tag once its prefix is taken off.
    Empty,
    /// The text is no semantic version.
    NotAVersion,
    /// The version is a prerelease that is neither a preview nor a release
    /// candidate.
    Noise,
}

/// A tag or a version text, classified.
#[derive(Debug, Clone, PartialEq, Eq)]
pub enum CatalogEntry {
    Accepted(Version),
    Rejected(Rejection),
}

/// A classified entry as a mathematical value.
pub ghost enum EntryModel {
    Accepted(VersionModel),
    Rejected(Rejection),
}

impl View for CatalogEntry {
    type V = EntryModel;

    open spec fn view(&self) -> EntryModel {
        match self {
            CatalogEntry::Accepted(version) => EntryModel::Accepted(version@),
            CatalogEntry::Rejected(reason) => EntryModel::Rejected(*reason),
        }
    }
}

/// The prefix that marks a version tag.
pub open spec fn tag_prefix() -> Seq<char> {
    "v"@
}

/// A prerelease label that is listed: none at all, one that begins with
/// `preview` and does not end in `sdk`, or one that begins with `rc`.
pub open spec fn is_listed_label(pre: Seq<char>) -> bool {
    ||| pre.len() == 0
    ||| "preview"@.is_prefix_of(pre) && !"sdk"@.is_suffix_of(pre)
    ||| "rc"@.is_prefix_of(pre)
}

/// How a version text is classified: accepted where it is a version with a
/// listed label.
pub open spec fn text_entry(text: Seq<char>) -> EntryModel {
    match semver_reading(text) {
        Some(version) => if is_listed_label(version.pre) {
            EntryModel::Accepted(version)
        } else {
            EntryModel::Rejected(Rejection::Noise)
        },
        None => EntryModel::Rejected(Rejection::NotAVersion),
    }
}

/// A tag without its prefix: what follows the leading `v` where the tag has
/// one, and the whole tag where it has none.
pub open spec fn stripped(tag: Seq<char>) -> Seq<char> {
    if tag_prefix().is_prefix_of(tag) {
        tag.skip(tag_prefix().len() as int)
    } else {
        tag
    }
}

/// How a tag is classified: as the text that is left once its prefix is
/// taken off, unless nothing is left.
pub open spec fn tag_entry(tag: Seq<char>) -> EntryModel {
    if stripped(tag).len() == 0 {
        EntryModel::Rejected(Rejection::Empty)
    } else {
        text_entry(stripped(tag))
    }
}

/// The versions that are accepted among version texts, in their order.
pub open spec fn accepted_texts(texts: Seq<String>) -> Seq<VersionModel>
    decreases texts.len(),
{
    if texts.len() == 0 {
        Seq::empty()
    } else {
        match text_entry(texts.last()@) {
            EntryModel::Accepted(version) => accepted_texts(texts.drop_last()).push(version),
            EntryModel::Rejected(_) => accepted_texts(texts.drop_last()),
        }
    }
}

/// The versions that are accepted among tags, in their order.
pub open spec fn accepted_tags(tags: Seq<String>) -> Seq<VersionModel>
    decreases tags.len(),
{
    if tags.len() == 0 {
        Seq::empty()
    } else {
        match tag_entry(tags.last()@) {
            EntryModel::Accepted(version) => accepted_tags(tags.drop_last()).push(version),
            EntryModel::Rejected(_) => accepted_tags(tags.drop_last()),
        }
    }
}

/// A list with a version added at its end, unless the list holds the
/// version already.
pub open spec fn with_version(seen: Seq<VersionModel>, version: VersionModel) -> Seq<
    VersionModel,
> {
    if seen.contains(version) {
        seen
    } else {
        seen.push(version)
    }
}

/// A list of versions without its repeats: of the places that hold the same
/// version, in all five fields, only the first is kept.
pub open spec fn without_repeats(versions: Seq<VersionModel>) -> Seq<VersionModel>
    decreases versions.len(),
{
    if versions.len() == 0 {
        Seq::empty()
    } else {
        with_version(without_repeats(versions.drop_last()), versions.last())
    }
}

/// Everything that the sources name: the versions accepted among the tags,
/// then those accepted among the older versions, each in the order of its
/// source, repeats included.
pub open spec fn accepted(tags: Seq<String>, ancient_versions: Seq<String>) -> Seq<VersionModel> {
    accepted_tags(tags) + accepted_texts(ancient_versions)
}

/// The catalog: the accepted versions in the order of the sources, each of
/// them once.
pub open spec fn catalog(tags: Seq<String>, ancient_versions: Seq<String>) -> Seq<VersionModel> {
    without_repeats(accepted(tags, ancient_versions))
}

/// A list without its repeats holds no version twice, holds exactly the
/// versions of the list, and is the list itself where that has no repeats.
pub proof fn lemma_without_repeats(versions: Seq<VersionModel>)
    ensures
        without_repeats(versions).no_duplicates(),
        forall|v: VersionModel|
            #![trigger without_repeats(versions).contains(v)]
            #![trigger versions.contains(v)]
            without_repeats(versions).contains(v) <==> versions.contains(v),
        versions.no_duplicates() ==> without_repeats(versions) == versions,
    decreases versions.len(),
{
    if versions.len() > 0 {
        let front = versions.drop_last();
        let last = versions.last();
        let kept = without_repeats(front);
        lemma_without_repeats(front);
        assert forall|v: VersionModel| without_repeats(versions).contains(v) implies versions.contains(
            v,
        ) by {
            if kept.contains(v) {
                assert(front.contains(v));
                let k = choose|k: int| 0 <= k < front.len() && front[k] == v;
                assert(versions[k] == v);
            } else {
                assert(kept.push(last).contains(v));
                let k = choose|k: int| 0 <= k < kept.push(last).len() && kept.push(last)[k] == v;
                if k < kept.len() {
                    assert(kept[k] == v);
                }
                assert(versions[versions.len() - 1] == v);
            }
        }
        assert forall|v: VersionModel| versions.contains(v) implies without_repeats(
            versions,
        ).contains(v) by {
            let k = choose|k: int| 0 <= k < versions.len() && versions[k] == v;
            if k < front.len() {
                assert(front[k] == v);
                assert(front.contains(v));
                assert(kept.contains(v));
                let m = choose|m: int| 0 <= m < kept.len() && kept[m] == v;
                assert(without_repeats(versions)[m] == v);
            } else {
                assert(v == last);
                if !kept.contains(last) {
                    assert(kept.push(last)[kept.len() as int] == v);
                }
            }
        }
        if versions.no_duplicates() {
            assert(front.no_duplicates());
            if front.contains(last) {
                let k = choose|k: int| 0 <= k < front.len() && front[k] == last;
                assert(versions[k] == versions[versions.len() - 1]);
            }
            assert(front.push(last) =~= versions);
        }
    }
}

/// The catalog holds no version twice, and holds exactly the versions that
/// the sources name.
pub proof fn lemma_catalog_is_a_set(tags: Seq<String>, ancient_versions: Seq<String>)
    ensures
        catalog(tags, ancient_versions).no_duplicates(),
        forall|v: VersionModel|
            #![trigger catalog(tags, ancient_versions).contains(v)]
            #![trigger accepted(tags, ancient_versions).contains(v)]
            catalog(tags, ancient_versions).contains(v) <==> accepted(
                tags,
                ancient_versions,
            ).contains(v),
{
    lemma_without_repeats(accepted(tags, ancient_versions));
}

/// A tag without the prefix is classified as the version text that it is,
/// and a tag with the prefix as the text behind it; the empty tag and the
/// bare prefix are empty.
pub proof fn lemma_tag_is_classified_by_its_text(tag: Seq<char>)
    ensures
        !tag_prefix().is_prefix_of(tag) && tag.len() > 0 ==> tag_entry(tag) == text_entry(tag),
        tag_entry(tag_prefix() + tag) == if tag.len() == 0 {
            EntryModel::Rejected(Rejection::Empty)
        } else {
            text_entry(tag)
        },
        tag_entry(Seq::<char>::empty()) == EntryModel::Rejected(Rejection::Empty),
{
    reveal_strlit("v");
    let tagged = tag_prefix() + tag;
    assert(tagged.subrange(0, 1) =~= tag_prefix());
    assert(tagged.skip(1) =~= tag);
    assert(!tag_prefix().is_prefix_of(Seq::<char>::empty()));
}

/// The catalog of a single tag holds the version that the tag is accepted
/// as, and nothing where the tag is rejected.
pub proof fn lemma_catalog_of_one_tag(tag: String)
    ensures
        catalog(seq![tag], Seq::<String>::empty()) == match tag_entry(tag@) {
            EntryModel::Accepted(version) => seq![version],
            EntryModel::Rejected(_) => Seq::<VersionModel>::empty(),
        },
{
    let tags = seq![tag];
    assert(tags.last() == tag);
    assert(tags.drop_last() =~= Seq::<String>::empty());
    assert(accepted_tags(Seq::<String>::empty()) =~= Seq::<VersionModel>::empty());
    assert(accepted_texts(Seq::<String>::empty()) =~= Seq::<VersionModel>::empty());
    match tag_entry(tag@) {
        EntryModel::Accepted(version) => {
            let one = seq![version];
            assert(accepted(tags, Seq::<String>::empty()) =~= one);
            assert(one.no_duplicates());
            lemma_without_repeats(one);
        },
        EntryModel::Rejected(_) => {
            assert(accepted(tags, Seq::<String>::empty()) =~= Seq::<VersionModel>::empty());
        },
    }
}

/// Tells whether a prerelease label is listed.
pub fn is_listed_prerelease(pre: &str) -> (r: bool)
    ensures
        r == is_listed_label(pre@),
{
    if pre.is_empty() {
        true
    } else if starts_with(pre, "preview") && !ends_with(pre, "sdk") {
        true
    } else {
        starts_with(pre, "rc")
    }
}

/// Classifies a version once it has been read. `parsed` is what the text
/// was read as, or `None` where it is no version.
pub fn classify_parsed(parsed: Option<Version>) -> (entry: CatalogEntry)
    ensures
        entry@ == match parsed {
            Some(version) => if is_listed_label(version@.pre) {
                EntryModel::Accepted(version@)
            } else {
                EntryModel::Rejected(Rejection::Noise)
            },
            None => EntryModel::Rejected(Rejection::NotAVersion),
        },
{
    match parsed {
        Some(version) => {
            if is_listed_prerelease(version.pre.as_str()) {
                CatalogEntry::Accepted(version)
            } else {
                CatalogEntry::Rejected(Rejection::Noise)
            }
        },
        None => CatalogEntry::Rejected(Rejection::NotAVersion),
    }
}

/// Classifies a version text. An accepted version reads back as itself
/// from its own text form.
pub fn classify_version(text: &str) -> (entry: CatalogEntry)
    ensures
        entry@ == text_entry(text@),
        entry matches CatalogEntry::Accepted(version) ==> version@.reads_back() && version@.text()
            == text@,
{
    classify_parsed(Version::parse(text))
}

/// Takes the prefix off a tag: a leading `v` is dropped, and a tag without
/// one is left as it is.
pub fn strip_tag_prefix(tag: &str) -> (rest: &str)
    ensures
        rest@ == stripped(tag@),
{
    proof {
        reveal_strlit("v");
    }
    if starts_with(tag, "v") {
        let length = tag.unicode_len();
        let rest = tag.substring_char(1, length);
        assert(rest@ =~= tag@.skip(1));
        rest
    } else {
        tag
    }
}

/// Classifies a tag. An accepted version reads back as itself from its own
/// text form.
pub fn classify_tag(tag: &str) -> (entry: CatalogEntry)
    ensures
        entry@ == tag_entry(tag@),
        entry matches CatalogEntry::Accepted(version) ==> version@.reads_back() && version@.text()
            == stripped(tag@),
{
    let rest = strip_tag_prefix(tag);
    if rest.is_empty() {
        return CatalogEntry::Rejected(Rejection::Empty);
    }
    classify_version(rest)
}

/// Tells whether a list holds a version, the same in every field.
pub fn holds_version(versions: &Vec<Version>, version: &Version) -> (r: bool)
    ensures
        r == models_of(versions@).contains(version@),
{
    let mut i: usize = 0;
    while i < versions.len()
        invariant
            i <= versions@.len(),
            forall|k: int| 0 <= k < i ==> models_of(versions@)[k] != version@,
        decreases versions@.len() - i,
    {
        if versions[i].same_as(version) {
            assert(models_of(versions@)[i as int] == version@);
            return true;
        }
        i += 1;
    }
    false
}

/// Puts a classified entry on the list: an accepted version goes to its
/// end unless the list holds it already, and a rejected entry changes
/// nothing.
pub fn list_entry(versions: &mut Vec<Version>, entry: CatalogEntry)
    ensures
        models_of(final(versions)@) == match entry@ {
            EntryModel::Accepted(version) => with_version(models_of(old(versions)@), version),
            EntryModel::Rejected(_) => models_of(old(versions)@),
        },
        final(versions)@ == old(versions)@ || (entry matches CatalogEntry::Accepted(version)
            && final(versions)@ == old(versions)@.push(version)),
{
    match entry {
        CatalogEntry::Accepted(version) => {
            if !holds_version(versions, &version) {
                versions.push(version);
                assert(models_of(versions@) =~= models_of(old(versions)@).push(version@));
            }
        },
        CatalogEntry::Rejected(_) => {},
    }
}

/// Lists the known SDK versions: those that the tags name, with or without
/// the prefix, then the listed ones among `ancient_versions`, which are
/// taken as they are written. A version that several entries name is listed
/// once, in the place of the first. Every version of the list reads back as
/// itself from its own text form.
pub fn load_versions(tags: &Vec<String>, ancient_versions: &Vec<String>) -> (versions: Vec<Version>)
    ensures
        models_of(versions@) == catalog(tags@, ancient_versions@),
        models_of(versions@).no_duplicates(),
        forall|i: int|
            0 <= i < versions@.len() ==> (#[trigger] versions@[i])@.reads_back() && is_listed_label(
                versions@[i]@.pre,
            ),
{
    let mut versions: Vec<Version> = Vec::new();
    let mut i: usize = 0;
    assert(tags@.take(0) =~= Seq::<String>::empty());
    assert(models_of(versions@) =~= without_repeats(accepted_tags(tags@.take(0))));
    while i < tags.len()
        invariant
            i <= tags@.len(),
            models_of(versions@) == without_repeats(accepted_tags(tags@.take(i as int))),
            forall|k: int|
                0 <= k < versions@.len() ==> (#[trigger] versions@[k])@.reads_back()
                    && is_listed_label(versions@[k]@.pre),
        decreases tags@.len() - i,
    {
        let entry = classify_tag(tags[i].as_str());
        proof {
            let upto = tags@.take(i + 1);
            let before = accepted_tags(tags@.take(i as int));
            assert(upto.last() == tags@[i as int]);
            assert(upto.drop_last() =~= tags@.take(i as int));
            if let EntryModel::Accepted(version) = entry@ {
                assert(before.push(version).drop_last() =~= before);
            }
        }
        list_entry(&mut versions, entry);
        i += 1;
    }
    assert(tags@.take(tags@.len() as int) =~= tags@);
    let mut j: usize = 0;
    assert(ancient_versions@.take(0) =~= Seq::<String>::empty());
    assert(accepted_tags(tags@) + accepted_texts(ancient_versions@.take(0)) =~= accepted_tags(
        tags@,
    ));
    while j < ancient_versions.len()
        invariant
            j <= ancient_versions@.len(),
            models_of(versions@) == without_repeats(
                accepted_tags(tags@) + accepted_texts(ancient_versions@.take(j as int)),
            ),
            forall|k: int|
                0 <= k < versions@.len() ==> (#[trigger] versions@[k])@.reads_back()
                    && is_listed_label(versions@[k]@.pre),
        decreases ancient_versions@.len() - j,
    {
        let entry = classify_version(ancient_versions[j].as_str());
        proof {
            let upto = ancient_versions@.take(j + 1);
            let before = accepted_tags(tags@) + accepted_texts(ancient_versions@.take(j as int));
            assert(upto.last() == ancient_versions@[j as int]);
            assert(upto.drop_last() =~= ancient_versions@.take(j as int));
            if let EntryModel::Accepted(version) = entry@ {
                assert(accepted_tags(tags@) + accepted_texts(upto) =~= before.push(version));
                assert(before.push(version).drop_last() =~= before);
            }
        }
        list_entry(&mut versions, entry);
        j += 1;
    }
    assert(ancient_versions@.take(ancient_versions@.len() as int) =~= ancient_versions@);
    proof {
        lemma_catalog_is_a_set(tags@, ancient_versions@);
    }
    versions
}

} // verus!
