//! The rules of the release tool: which package is released, under which name
//! and tag, and whether its version may be published after the latest one.

use crate::pick::sole_item;
use crate::text::{after_first, is_single_byte, texts};
use std::cmp::Ordering;
use vstd::prelude::*;
use vstd::string::*;

verus! {

/// Whether the `semver` crate reads `text` as a version.
pub uninterp spec fn is_version(text: Seq<char>) -> bool;

/// How the `semver` crate orders the version that `local` writes relative to
/// the one that `remote` writes, by precedence: by major, minor and patch
/// number and by pre-release, leaving build metadata aside.
pub uninterp spec fn version_order(local: Seq<char>, remote: Seq<char>) -> Ordering;

/// Calls `semver::Version::parse` on both texts and, where both are versions,
/// `semver::Version::cmp_precedence` on what they parse to. Where one is no
/// version, the parser's description of the first that is not comes back.
/// Verus takes on trust that whether a text parses, and the order of two that
/// do, depend on their characters alone; nothing is claimed of the
/// description.
#[verifier::external_body]
fn compare_versions(local: &str, remote: &str) -> (r: Result<Ordering, String>)
    ensures
        (match r {
            Ok(order) => is_version(local@) && is_version(remote@) && order == version_order(
                local@,
                remote@,
            ),
            Err(_) => !(is_version(local@) && is_version(remote@)),
        }),
{
    let local = match semver::Version::parse(local) {
        Ok(version) => version,
        Err(error) => return Err(error.to_string()),
    };
    match semver::Version::parse(remote) {
        Ok(remote) => Ok(local.cmp_precedence(&remote)),
        Err(error) => Err(error.to_string()),
    }
}

/// The package whose version is released.
pub const PACKAGE: &'static str = "lore-seeker";

/// The `Content-Type` under which the launcher's executables are uploaded.
pub const EXECUTABLE_TYPE: &'static str = "application/vnd.microsoft.portable-executable";

/// Why a release is not made.
#[derive(Debug, PartialEq, Eq)]
pub enum ReleaseError {
    /// A command of the build exited unsuccessfully.
    Command,
    /// The workspace does not hold exactly one package to release.
    MissingPackage,
    /// The version to release is the latest published one.
    SameVersion,
    /// The version to release is older than the latest published one.
    VersionRegression,
    /// The version to release, or the latest release's tag without its first
    /// character, is no version; the text is the parser's description.
    SemVer(String),
}

/// The name of the release of version `version`.
pub fn release_name(version: &str) -> (name: String)
    ensures
        name@ == "Lore Seeker Desktop "@ + version@,
{
    let mut name = String::from_str("Lore Seeker Desktop ");
    name.append(version);
    name
}

/// The tag of the release of version `version`.
pub open spec fn tag_of_version(version: Seq<char>) -> Seq<char> {
    "v"@ + version
}

/// The version that a release's tag stands for: the tag without its first
/// character.
pub open spec fn version_of_tag(tag: Seq<char>) -> Seq<char> {
    tag.drop_first()
}

/// The tag of the release of version `version`.
pub fn release_tag(version: &str) -> (tag: String)
    ensures
        tag@ == tag_of_version(version@),
{
    let mut tag = String::from_str("v");
    tag.append(version);
    tag
}

/// The tag written for a version is not empty, starts with a one-byte
/// character, and reads back as that version.
pub proof fn lemma_tag_reads_back(version: Seq<char>)
    ensures
        tag_of_version(version).len() > 0,
        is_single_byte(tag_of_version(version)[0]),
        version_of_tag(tag_of_version(version)) == version,
{
    reveal_strlit("v");
}

/// Whether a version may be released, given how it compares to the latest
/// published one.
pub open spec fn gate(order: Ordering) -> Result<(), ReleaseError> {
    match order {
        Ordering::Less => Err(ReleaseError::VersionRegression),
        Ordering::Equal => Err(ReleaseError::SameVersion),
        Ordering::Greater => Ok(()),
    }
}

/// Lets a release pass only if its version is newer than the latest published
/// one, `order` being the order of the first relative to the second.
pub fn check_order(order: Ordering) -> (r: Result<(), ReleaseError>)
    ensures
        r == gate(order),
{
    match order {
        Ordering::Less => Err(ReleaseError::VersionRegression),
        Ordering::Equal => Err(ReleaseError::SameVersion),
        Ordering::Greater => Ok(()),
    }
}

/// Whether the version that `local` writes may be released after the version
/// that the tag of the latest published release stands for; `None` where one
/// of the two texts is no version.
pub open spec fn gated(local: Seq<char>, remote_tag: Seq<char>) -> Option<Result<(), ReleaseError>> {
    if is_version(local) && is_version(version_of_tag(remote_tag)) {
        Some(gate(version_order(local, version_of_tag(remote_tag))))
    } else {
        None
    }
}

/// Lets the release of the version that `local` writes pass only if it is
/// newer than the version that `remote_tag`, the tag of the latest published
/// release, stands for. A version that is the published one, or older, is
/// refused; so is a text that is no version, with the parser's description.
pub fn version_gate(local: &str, remote_tag: &str) -> (r: Result<(), ReleaseError>)
    requires
        remote_tag@.len() > 0,
        is_single_byte(remote_tag@[0]),
    ensures
        (match gated(local@, remote_tag@) {
            Some(verdict) => r == verdict,
            None => r matches Err(ReleaseError::SemVer(_)),
        }),
{
    match compare_versions(local, after_first(remote_tag)) {
        Ok(order) => check_order(order),
        Err(description) => Err(ReleaseError::SemVer(description)),
    }
}

/// Whether the name at `i` is the only one of `names` that is `wanted`.
pub open spec fn is_sole_index(names: Seq<Seq<char>>, wanted: Seq<char>, i: int) -> bool {
    &&& 0 <= i < names.len()
    &&& names[i] == wanted
    &&& forall|j: int| 0 <= j < names.len() && j != i ==> names[j] != wanted
}

/// Finds the package to release among the names of the workspace's packages:
/// the position of [`PACKAGE`], where exactly one package has that name.
pub fn select_package(names: &Vec<String>) -> (r: Result<usize, ReleaseError>)
    ensures
        (match r {
            Ok(i) => is_sole_index(texts(names@), PACKAGE@, i as int),
            Err(error) => error == ReleaseError::MissingPackage && forall|i: int|
                !is_sole_index(texts(names@), PACKAGE@, i),
        }),
{
    let ghost views = texts(names@);
    let mut hits: Vec<usize> = Vec::new();
    let mut i: usize = 0;
    while i < names.len()
        invariant
            i <= names.len(),
            views == texts(names@),
            forall|k: int| 0 <= k < hits.len() ==> hits[k] < i && views[hits[k] as int] == PACKAGE@,
            forall|k: int, l: int| 0 <= k < l < hits.len() ==> hits[k] < hits[l],
            forall|j: int|
                0 <= j < i && views[j] == PACKAGE@ ==> exists|k: int|
                    0 <= k < hits.len() && hits[k] == j,
        decreases names.len() - i,
    {
        let ghost before = hits@;
        if *names[i].as_str() == *PACKAGE {
            hits.push(i);
            assert forall|j: int| 0 <= j < i + 1 && views[j] == PACKAGE@ implies exists|k: int|
                0 <= k < hits.len() && hits[k] == j by {
                if j < i {
                    let k = choose|k: int| 0 <= k < before.len() && before[k] == j;
                    assert(hits[k] == j);
                } else {
                    assert(hits[hits.len() - 1] == j);
                }
            }
        }
        i = i + 1;
    }
    let ghost found = hits@;
    match sole_item(hits) {
        Some(index) => {
            assert(found[0] == index);
            assert forall|j: int| 0 <= j < views.len() && j != index implies views[j]
                != PACKAGE@ by {
                if views[j] == PACKAGE@ {
                    let k = choose|k: int| 0 <= k < found.len() && found[k] == j;
                    assert(k == 0);
                }
            }
            Ok(index)
        },
        None => {
            assert forall|i: int| !is_sole_index(views, PACKAGE@, i) by {
                if is_sole_index(views, PACKAGE@, i) {
                    let k = choose|k: int| 0 <= k < found.len() && found[k] == i;
                    assert(found.len() >= 2);
                    let other = if k == 0 {
                        1
                    } else {
                        0
                    };
                    assert(found[other] != found[k]);
                    assert(views[found[other] as int] == PACKAGE@);
                }
            }
            Err(ReleaseError::MissingPackage)
        },
    }
}

/// What a build command's exit means for the release.
pub fn check_command(success: bool) -> (r: Result<(), ReleaseError>)
    ensures
        success ==> r == Ok::<(), ReleaseError>(()),
        !success ==> r == Err::<(), ReleaseError>(ReleaseError::Command),
{
    if success {
        Ok(())
    } else {
        Err(ReleaseError::Command)
    }
}

} // verus!
