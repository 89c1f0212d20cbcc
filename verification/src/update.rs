//! Self-update: whether the running build is the latest release, and how the
//! download of a newer one proceeds.

use crate::github::{
    asset_test, latest_release_request, select_asset, selected_asset, tag_views,
    Release, ReleaseView, Repo, RepoView, Request, RequestView, Selector, SelectorView, Tag,
    TagView,
};
use crate::pick::{lemma_no_match, lemma_one_match, lemma_two_matches, sole_item, sole_match};
use crate::platform::Arch;
use vstd::prelude::*;
use vstd::string::*;

verus! {

/// An error that can occur while checking for an update or downloading one.
#[derive(Debug, PartialEq, Eq)]
pub enum Error {
    /// The release asset we were looking for is not in the release.
    AssetNotFound,
    /// An I/O error occurred; the text is the error's description.
    Io(String),
    /// A request failed or its answer could not be read; the text is the
    /// error's description.
    Reqwest(String),
    /// The latest release's tag name is not listed in the repo's tags.
    TagNotFound,
}

/// What an [`Error`] holds.
pub enum ErrorView {
    AssetNotFound,
    Io(Seq<char>),
    Reqwest(Seq<char>),
    TagNotFound,
}

impl View for Error {
    type V = ErrorView;

    open spec fn view(&self) -> ErrorView {
        match self {
            Error::AssetNotFound => ErrorView::AssetNotFound,
            Error::Io(text) => ErrorView::Io(text@),
            Error::Reqwest(text) => ErrorView::Reqwest(text@),
            Error::TagNotFound => ErrorView::TagNotFound,
        }
    }
}

impl ErrorView {
    /// The text that describes the error to the user.
    pub open spec fn message(self) -> Seq<char> {
        match self {
            ErrorView::AssetNotFound => "Release asset not found."@,
            ErrorView::Io(text) => text,
            ErrorView::Reqwest(text) => text,
            ErrorView::TagNotFound => "Release tag not found."@,
        }
    }
}

impl Error {
    /// The text that describes the error to the user.
    pub fn message(&self) -> (text: String)
        ensures
            text@ == self@.message(),
    {
        match self {
            Error::AssetNotFound => String::from_str("Release asset not found."),
            Error::Io(text) => text.clone(),
            Error::Reqwest(text) => text.clone(),
            Error::TagNotFound => String::from_str("Release tag not found."),
        }
    }
}

/// The view of an outcome that may have failed.
pub open spec fn outcome_view<T>(outcome: Result<T, Error>) -> Result<T, ErrorView> {
    match outcome {
        Ok(value) => Ok(value),
        Err(error) => Err(error@),
    }
}

/// The name under which the launcher is published for `arch`.
pub open spec fn platform_asset_name(arch: Arch) -> Seq<char> {
    match arch {
        Arch::X86 => "lore-seeker-windows-32bit.exe"@,
        Arch::X86_64 => "lore-seeker-windows-64bit.exe"@,
    }
}

/// The name under which the launcher is published for `arch`.
pub fn platform_asset(arch: Arch) -> (name: &'static str)
    ensures
        name@ == platform_asset_name(arch),
{
    match arch {
        Arch::X86 => "lore-seeker-windows-32bit.exe",
        Arch::X86_64 => "lore-seeker-windows-64bit.exe",
    }
}

/// The selector of the launcher's own asset: its exact name.
pub open spec fn platform_selector_view(arch: Arch) -> SelectorView {
    SelectorView::Exact(platform_asset_name(arch))
}

/// The selector of the launcher's own asset: its exact name.
pub fn platform_selector(arch: Arch) -> (selector: Selector)
    ensures
        selector@ == platform_selector_view(arch),
{
    Selector::Exact(String::from_str(platform_asset(arch)))
}

/// The repository that publishes the launcher.
pub open spec fn own_repo() -> RepoView {
    RepoView { user: "fenhl"@, name: "lore-seeker-desktop"@ }
}

/// The repository that publishes the launcher.
pub fn repo() -> (repo: Repo)
    ensures
        repo@ == own_repo(),
{
    Repo::new("fenhl", "lore-seeker-desktop")
}

/// The test that a tag carries the name `name`.
pub open spec fn tag_test(name: Seq<char>) -> spec_fn(TagView) -> bool {
    |t: TagView| t.name == name
}

/// What the check for an update finds: `Ok(true)` for a build that is up to
/// date, `Ok(false)` where an update is available.
///
/// The release's tag name must belong to exactly one tag of the repository;
/// the build is up to date exactly if that tag's commit is the one the build
/// was made from. With no such tag, or with several, there is no answer.
pub open spec fn reconciled(tag_name: Seq<char>, tags: Seq<TagView>, build_hash: Seq<char>)
    -> Result<bool, ErrorView> {
    match sole_match(tags, tag_test(tag_name)) {
        Some(tag) => Ok(tag.commit.sha == build_hash),
        None => Err(ErrorView::TagNotFound),
    }
}

/// Returns `Ok(true)` if the build made from the commit `build_hash` is the
/// latest release, or `Ok(false)` if an update is available, given the latest
/// release and the tags of the repository.
pub fn update_check(release: &Release, tags: &Vec<Tag>, build_hash: &str) -> (r: Result<
    bool,
    Error,
>)
    ensures
        outcome_view(r) == reconciled(release@.tag_name, tag_views(tags@), build_hash@),
{
    let ghost views = tag_views(tags@);
    let ghost test = tag_test(release@.tag_name);
    let mut hits: Vec<&Tag> = Vec::new();
    let mut i: usize = 0;
    proof {
        reveal(Seq::filter);
    }
    while i < tags.len()
        invariant
            i <= tags.len(),
            views == tag_views(tags@),
            test == tag_test(release@.tag_name),
            hits@.map_values(|t: &Tag| t@) == views.take(i as int).filter(test),
        decreases tags.len() - i,
    {
        let tag = &tags[i];
        proof {
            assert(views.take(i + 1) =~= views.take(i as int).push(tag@));
            views.take(i as int).lemma_filter_push(tag@, test);
        }
        if tag.name == release.tag_name {
            hits.push(tag);
        }
        i = i + 1;
    }
    proof {
        assert(views.take(tags.len() as int) =~= views);
    }
    match sole_item(hits) {
        Some(tag) => Ok(*tag.commit.sha.as_str() == *build_hash),
        None => Err(Error::TagNotFound),
    }
}

/// With exactly one tag of the release's name, the one at `i`, the build is up
/// to date if and only if that tag's commit is the build's own, and an update
/// is available otherwise.
pub proof fn lemma_one_tag_decides(
    tag_name: Seq<char>,
    tags: Seq<TagView>,
    build_hash: Seq<char>,
    i: int,
)
    requires
        0 <= i < tags.len(),
        tags[i].name == tag_name,
        forall|j: int| 0 <= j < tags.len() && j != i ==> (#[trigger] tags[j]).name != tag_name,
    ensures
        reconciled(tag_name, tags, build_hash) == Ok::<bool, ErrorView>(
            tags[i].commit.sha == build_hash,
        ),
{
    lemma_one_match(tags, tag_test(tag_name), i);
}

/// With no tag of the release's name, the check fails: the tag is not found.
pub proof fn lemma_no_tag_fails(tag_name: Seq<char>, tags: Seq<TagView>, build_hash: Seq<char>)
    requires
        forall|j: int| 0 <= j < tags.len() ==> (#[trigger] tags[j]).name != tag_name,
    ensures
        reconciled(tag_name, tags, build_hash) == Err::<bool, ErrorView>(ErrorView::TagNotFound),
{
    lemma_no_match(tags, tag_test(tag_name));
}

/// With more than one tag of the release's name, the check fails in the same
/// way, whatever the tags point to: none of them is picked.
pub proof fn lemma_several_tags_fail(
    tag_name: Seq<char>,
    tags: Seq<TagView>,
    build_hash: Seq<char>,
    i: int,
    j: int,
)
    requires
        0 <= i < j < tags.len(),
        tags[i].name == tag_name,
        tags[j].name == tag_name,
    ensures
        reconciled(tag_name, tags, build_hash) == Err::<bool, ErrorView>(ErrorView::TagNotFound),
{
    lemma_two_matches(tags, tag_test(tag_name), i, j);
}


/// How far the download of an update has come.
#[derive(Clone, Copy, Debug, PartialEq, Eq, Structural)]
pub enum DownloadState {
    /// Nothing has been asked yet.
    Start,
    /// The latest release has been asked for.
    AwaitingRelease,
    /// The asset is being written to the place the user chose.
    AwaitingDownload,
    /// The procedure has ended, well or badly.
    Finished,
}

/// What the caller reports to [`download_update`].
#[derive(Debug, PartialEq, Eq)]
pub enum DownloadEvent {
    /// The download is wanted.
    Begin,
    /// The request for the latest release was answered, or failed.
    ReleaseFetched(Result<Release, Error>),
    /// The asset was written in full, or the transfer failed.
    Downloaded(Result<(), Error>),
}

/// What a [`DownloadEvent`] holds.
pub enum DownloadEventView {
    Begin,
    ReleaseFetched(Result<ReleaseView, ErrorView>),
    Downloaded(Result<(), ErrorView>),
}

impl View for DownloadEvent {
    type V = DownloadEventView;

    open spec fn view(&self) -> DownloadEventView {
        match self {
            DownloadEvent::Begin => DownloadEventView::Begin,
            DownloadEvent::ReleaseFetched(Ok(release)) => DownloadEventView::ReleaseFetched(
                Ok(release@),
            ),
            DownloadEvent::ReleaseFetched(Err(error)) => DownloadEventView::ReleaseFetched(
                Err(error@),
            ),
            DownloadEvent::Downloaded(outcome) => DownloadEventView::Downloaded(
                outcome_view(*outcome),
            ),
        }
    }
}

/// What [`download_update`] asks the caller to do next.
#[derive(Debug, PartialEq, Eq)]
pub enum DownloadAction {
    /// Nothing: the event was not the one awaited.
    Nothing,
    /// Send the request and report the release that comes back.
    Fetch(Request),
    /// Write what is at `url` to the place the user chose.
    Download { url: String },
    /// Stop, with this result.
    Finish(Result<(), Error>),
}

/// What a [`DownloadAction`] holds.
pub enum DownloadActionView {
    Nothing,
    Fetch(RequestView),
    Download { url: Seq<char> },
    Finish(Result<(), ErrorView>),
}

impl View for DownloadAction {
    type V = DownloadActionView;

    open spec fn view(&self) -> DownloadActionView {
        match self {
            DownloadAction::Nothing => DownloadActionView::Nothing,
            DownloadAction::Fetch(request) => DownloadActionView::Fetch(request@),
            DownloadAction::Download { url } => DownloadActionView::Download { url: url@ },
            DownloadAction::Finish(outcome) => DownloadActionView::Finish(outcome_view(*outcome)),
        }
    }
}

/// One step of the download: the state it leads to and what to do there.
#[derive(Debug, PartialEq, Eq)]
pub struct DownloadStep {
    pub state: DownloadState,
    pub action: DownloadAction,
}

/// What a [`DownloadStep`] holds.
pub struct DownloadStepView {
    pub state: DownloadState,
    pub action: DownloadActionView,
}

impl View for DownloadStep {
    type V = DownloadStepView;

    open spec fn view(&self) -> DownloadStepView {
        DownloadStepView { state: self.state, action: self.action@ }
    }
}

/// The step that the download of an update takes on `event` in `state`.
///
/// The latest release is asked for first. Its asset for `arch` is then looked
/// up by its exact name: with exactly one such asset the download of that asset
/// follows; otherwise the procedure ends with `AssetNotFound`, and nothing is
/// downloaded. A failure reported by the caller ends the procedure with that
/// failure. An event that is not the one awaited changes nothing.
pub open spec fn download_step(arch: Arch, state: DownloadState, event: DownloadEventView)
    -> DownloadStepView {
    match (state, event) {
        (DownloadState::Start, DownloadEventView::Begin) => DownloadStepView {
            state: DownloadState::AwaitingRelease,
            action: DownloadActionView::Fetch(latest_release_request(own_repo())),
        },
        (DownloadState::AwaitingRelease, DownloadEventView::ReleaseFetched(Ok(release))) => {
            match selected_asset(release.assets, platform_selector_view(arch)) {
                Some(asset) => DownloadStepView {
                    state: DownloadState::AwaitingDownload,
                    action: DownloadActionView::Download { url: asset.browser_download_url },
                },
                None => DownloadStepView {
                    state: DownloadState::Finished,
                    action: DownloadActionView::Finish(Err(ErrorView::AssetNotFound)),
                },
            }
        },
        (DownloadState::AwaitingRelease, DownloadEventView::ReleaseFetched(Err(error))) => {
            DownloadStepView {
                state: DownloadState::Finished,
                action: DownloadActionView::Finish(Err(error)),
            }
        },
        (DownloadState::AwaitingDownload, DownloadEventView::Downloaded(outcome)) => {
            DownloadStepView {
                state: DownloadState::Finished,
                action: DownloadActionView::Finish(outcome),
            }
        },
        _ => DownloadStepView { state, action: DownloadActionView::Nothing },
    }
}

/// Advances the download of the latest release of Lore Seeker Desktop by one
/// step: takes what the caller reports and says what to do next.
pub fn download_update(arch: Arch, state: DownloadState, event: DownloadEvent) -> (step:
    DownloadStep)
    ensures
        step@ == download_step(arch, state, event@),
{
    match (state, event) {
        (DownloadState::Start, DownloadEvent::Begin) => DownloadStep {
            state: DownloadState::AwaitingRelease,
            action: DownloadAction::Fetch(repo().latest_release()),
        },
        (DownloadState::AwaitingRelease, DownloadEvent::ReleaseFetched(Ok(release))) => {
            let selector = platform_selector(arch);
            match select_asset(&release.assets, &selector) {
                Some(asset) => DownloadStep {
                    state: DownloadState::AwaitingDownload,
                    action: DownloadAction::Download { url: asset.browser_download_url.clone() },
                },
                None => DownloadStep {
                    state: DownloadState::Finished,
                    action: DownloadAction::Finish(Err(Error::AssetNotFound)),
                },
            }
        },
        (DownloadState::AwaitingRelease, DownloadEvent::ReleaseFetched(Err(error))) => {
            DownloadStep { state: DownloadState::Finished, action: DownloadAction::Finish(Err(error)) }
        },
        (DownloadState::AwaitingDownload, DownloadEvent::Downloaded(outcome)) => DownloadStep {
            state: DownloadState::Finished,
            action: DownloadAction::Finish(outcome),
        },
        (state, _) => DownloadStep { state, action: DownloadAction::Nothing },
    }
}


/// The download of the platform's asset follows a release that holds exactly
/// one such asset, the one at `i`.
pub proof fn lemma_download_follows_one_asset(arch: Arch, release: ReleaseView, i: int)
    requires
        0 <= i < release.assets.len(),
        platform_selector_view(arch).matches(release.assets[i].name),
        forall|j: int|
            0 <= j < release.assets.len() && j != i ==> !platform_selector_view(arch).matches(
                (#[trigger] release.assets[j]).name,
            ),
    ensures
        download_step(
            arch,
            DownloadState::AwaitingRelease,
            DownloadEventView::ReleaseFetched(Ok(release)),
        ) == (DownloadStepView {
            state: DownloadState::AwaitingDownload,
            action: DownloadActionView::Download { url: release.assets[i].browser_download_url },
        }),
{
    lemma_one_match(release.assets, asset_test(platform_selector_view(arch)), i);
}

/// A release without an asset for the platform ends the procedure with
/// `AssetNotFound`; no download is asked for.
pub proof fn lemma_download_needs_an_asset(arch: Arch, release: ReleaseView)
    requires
        forall|j: int|
            0 <= j < release.assets.len() ==> !platform_selector_view(arch).matches(
                (#[trigger] release.assets[j]).name,
            ),
    ensures
        download_step(
            arch,
            DownloadState::AwaitingRelease,
            DownloadEventView::ReleaseFetched(Ok(release)),
        ) == (DownloadStepView {
            state: DownloadState::Finished,
            action: DownloadActionView::Finish(Err(ErrorView::AssetNotFound)),
        }),
{
    lemma_no_match(release.assets, asset_test(platform_selector_view(arch)));
}

/// A release with more than one asset for the platform ends the procedure in
/// the same way; no download is asked for.
pub proof fn lemma_download_refuses_several_assets(
    arch: Arch,
    release: ReleaseView,
    i: int,
    j: int,
)
    requires
        0 <= i < j < release.assets.len(),
        platform_selector_view(arch).matches(release.assets[i].name),
        platform_selector_view(arch).matches(release.assets[j].name),
    ensures
        download_step(
            arch,
            DownloadState::AwaitingRelease,
            DownloadEventView::ReleaseFetched(Ok(release)),
        ) == (DownloadStepView {
            state: DownloadState::Finished,
            action: DownloadActionView::Finish(Err(ErrorView::AssetNotFound)),
        }),
{
    lemma_two_matches(release.assets, asset_test(platform_selector_view(arch)), i, j);
}

/// A download is asked for only in answer to a release, and only of the one
/// asset that the platform's selector picks from it.
pub proof fn lemma_download_only_of_selected_asset(
    arch: Arch,
    state: DownloadState,
    event: DownloadEventView,
)
    requires
        download_step(arch, state, event).action is Download,
    ensures
        state == DownloadState::AwaitingRelease,
        event matches DownloadEventView::ReleaseFetched(Ok(release)) && selected_asset(
            release.assets,
            platform_selector_view(arch),
        ) matches Some(asset) && download_step(arch, state, event).action
            == (DownloadActionView::Download { url: asset.browser_download_url }),
{
}

/// A failed transfer ends the procedure with the failure that was reported.
pub proof fn lemma_download_failure_is_reported(arch: Arch, error: ErrorView)
    ensures
        download_step(
            arch,
            DownloadState::AwaitingDownload,
            DownloadEventView::Downloaded(Err(error)),
        ) == (DownloadStepView {
            state: DownloadState::Finished,
            action: DownloadActionView::Finish(Err(error)),
        }),
{
}

/// Success is reported only once the caller has reported that the asset was
/// written in full.
pub proof fn lemma_download_success_needs_transfer(
    arch: Arch,
    state: DownloadState,
    event: DownloadEventView,
)
    requires
        download_step(arch, state, event).action == DownloadActionView::Finish(Ok(())),
    ensures
        state == DownloadState::AwaitingDownload,
        event == DownloadEventView::Downloaded(Ok(())),
{
}

/// Once the procedure has ended, no event sets it going again.
pub proof fn lemma_download_stays_finished(arch: Arch, event: DownloadEventView)
    ensures
        download_step(arch, DownloadState::Finished, event) == (DownloadStepView {
            state: DownloadState::Finished,
            action: DownloadActionView::Nothing,
        }),
{
}

} // verus!
