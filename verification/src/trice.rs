//! Cockatrice integration: how the download and the run of its installer
//! proceed.

use crate::github::{
    asset_test, latest_release_request, select_asset, selected_asset, Release, ReleaseView, Repo,
    RepoView, Request, RequestView, Selector, SelectorView,
};
use crate::pick::{lemma_no_match, lemma_one_match, lemma_two_matches};
use crate::platform::Arch;
use crate::text::{debug_text, quoted, texts};
use vstd::prelude::*;
use vstd::string::*;

verus! {

/// An error of the installation itself, as opposed to one of the network or of
/// the file system.
#[derive(Clone, Copy, Debug, PartialEq, Eq, Structural)]
pub enum OtherError {
    /// The Cockatrice installer exited with an error exit code.
    Installer,
    /// The asset for the local platform was not found in the current release.
    MissingAsset,
}

/// An error that can occur while installing Cockatrice.
#[derive(Debug, PartialEq, Eq)]
pub enum Error {
    /// An I/O error occurred; the text is the error's description.
    Io(String),
    /// The installation itself failed.
    Other(OtherError),
    /// A request failed or its answer could not be read; the text is the
    /// error's description.
    Reqwest(String),
}

/// What an [`Error`] holds.
pub enum ErrorView {
    Io(Seq<char>),
    Other(OtherError),
    Reqwest(Seq<char>),
}

impl View for Error {
    type V = ErrorView;

    open spec fn view(&self) -> ErrorView {
        match self {
            Error::Io(text) => ErrorView::Io(text@),
            Error::Other(other) => ErrorView::Other(*other),
            Error::Reqwest(text) => ErrorView::Reqwest(text@),
        }
    }
}

impl ErrorView {
    /// The text that describes the error to the user.
    pub open spec fn message(self) -> Seq<char> {
        match self {
            ErrorView::Io(text) => text,
            ErrorView::Other(OtherError::Installer) => "Cockatrice Setup failed."@,
            ErrorView::Other(OtherError::MissingAsset) =>
                "Could not find download link for Cockatrice."@,
            ErrorView::Reqwest(text) => text,
        }
    }
}

impl Error {
    /// The text that describes the error to the user.
    pub fn message(&self) -> (text: String)
        ensures
            text@ == self@.message(),
    {
        match self {
            Error::Io(text) => text.clone(),
            Error::Other(OtherError::Installer) => String::from_str("Cockatrice Setup failed."),
            Error::Other(OtherError::MissingAsset) => String::from_str(
                "Could not find download link for Cockatrice.",
            ),
            Error::Reqwest(text) => text.clone(),
        }
    }
}

impl From<OtherError> for Error {
    fn from(other: OtherError) -> (error: Error) {
        Error::Other(other)
    }
}

impl vstd::std_specs::convert::FromSpecImpl<OtherError> for Error {
    open spec fn obeys_from_spec() -> bool {
        true
    }

    open spec fn from_spec(other: OtherError) -> Error {
        Error::Other(other)
    }
}

/// The view of an outcome that may have failed.
pub open spec fn outcome_view<T>(outcome: Result<T, Error>) -> Result<T, ErrorView> {
    match outcome {
        Ok(value) => Ok(value),
        Err(error) => Err(error@),
    }
}

/// The ending of the name of the Cockatrice installer for `arch`.
pub open spec fn platform_suffix_text(arch: Arch) -> Seq<char> {
    match arch {
        Arch::X86 => "win32.exe"@,
        Arch::X86_64 => "win64.exe"@,
    }
}

/// The ending of the name of the Cockatrice installer for `arch`.
pub fn platform_suffix(arch: Arch) -> (suffix: &'static str)
    ensures
        suffix@ == platform_suffix_text(arch),
{
    match arch {
        Arch::X86 => "win32.exe",
        Arch::X86_64 => "win64.exe",
    }
}

/// The selector of the Cockatrice installer: the ending of its name.
pub open spec fn platform_selector_view(arch: Arch) -> SelectorView {
    SelectorView::Suffix(platform_suffix_text(arch))
}

/// The selector of the Cockatrice installer: the ending of its name.
pub fn platform_selector(arch: Arch) -> (selector: Selector)
    ensures
        selector@ == platform_selector_view(arch),
{
    Selector::Suffix(String::from_str(platform_suffix(arch)))
}

/// The repository that publishes Cockatrice.
pub open spec fn cockatrice_repo() -> RepoView {
    RepoView { user: "Cockatrice"@, name: "Cockatrice"@ }
}

/// The repository that publishes Cockatrice.
pub fn repo() -> (repo: Repo)
    ensures
        repo@ == cockatrice_repo(),
{
    Repo::new("Cockatrice", "Cockatrice")
}

/// How far the installation has come.
#[derive(Debug, PartialEq, Eq)]
pub enum InstallState {
    /// Nothing has been asked yet.
    Start,
    /// The HTTP client is being set up.
    AwaitingClient,
    /// The latest release has been asked for.
    AwaitingRelease,
    /// A temporary file for the installer is being made.
    AwaitingTempfile { download_url: String },
    /// The installer has been asked for.
    AwaitingResponse { installer_path: String },
    /// The installer is being written to the temporary file.
    AwaitingDownload { installer_path: String },
    /// The installer is running.
    AwaitingInstaller,
    /// The procedure has ended, well or badly.
    Finished,
}

/// What an [`InstallState`] holds.
pub enum InstallStateView {
    Start,
    AwaitingClient,
    AwaitingRelease,
    AwaitingTempfile { download_url: Seq<char> },
    AwaitingResponse { installer_path: Seq<char> },
    AwaitingDownload { installer_path: Seq<char> },
    AwaitingInstaller,
    Finished,
}

impl View for InstallState {
    type V = InstallStateView;

    open spec fn view(&self) -> InstallStateView {
        match self {
            InstallState::Start => InstallStateView::Start,
            InstallState::AwaitingClient => InstallStateView::AwaitingClient,
            InstallState::AwaitingRelease => InstallStateView::AwaitingRelease,
            InstallState::AwaitingTempfile { download_url } => InstallStateView::AwaitingTempfile {
                download_url: download_url@,
            },
            InstallState::AwaitingResponse { installer_path } => {
                InstallStateView::AwaitingResponse { installer_path: installer_path@ }
            },
            InstallState::AwaitingDownload { installer_path } => {
                InstallStateView::AwaitingDownload { installer_path: installer_path@ }
            },
            InstallState::AwaitingInstaller => InstallStateView::AwaitingInstaller,
            InstallState::Finished => InstallStateView::Finished,
        }
    }
}

/// What the caller reports to [`install`].
#[derive(Debug, PartialEq, Eq)]
pub enum InstallEvent {
    /// The installation is wanted.
    Begin,
    /// The HTTP client is ready, or could not be made.
    ClientMade(Result<(), Error>),
    /// The request for the latest release was answered, or failed.
    ReleaseFetched(Result<Release, Error>),
    /// The temporary file exists at this path, or could not be made.
    TempfileMade(Result<String, Error>),
    /// The server has begun to answer the request for the installer, or the
    /// request failed.
    Responded(Result<(), Error>),
    /// The installer was written in full, or the transfer failed.
    Downloaded(Result<(), Error>),
    /// The installer ran and exited, `true` for success, or could not be run.
    InstallerExited(Result<bool, Error>),
}

/// What an [`InstallEvent`] holds.
pub enum InstallEventView {
    Begin,
    ClientMade(Result<(), ErrorView>),
    ReleaseFetched(Result<ReleaseView, ErrorView>),
    TempfileMade(Result<Seq<char>, ErrorView>),
    Responded(Result<(), ErrorView>),
    Downloaded(Result<(), ErrorView>),
    InstallerExited(Result<bool, ErrorView>),
}

impl View for InstallEvent {
    type V = InstallEventView;

    open spec fn view(&self) -> InstallEventView {
        match self {
            InstallEvent::Begin => InstallEventView::Begin,
            InstallEvent::ClientMade(outcome) => InstallEventView::ClientMade(
                outcome_view(*outcome),
            ),
            InstallEvent::ReleaseFetched(Ok(release)) => InstallEventView::ReleaseFetched(
                Ok(release@),
            ),
            InstallEvent::ReleaseFetched(Err(error)) => InstallEventView::ReleaseFetched(
                Err(error@),
            ),
            InstallEvent::TempfileMade(Ok(path)) => InstallEventView::TempfileMade(Ok(path@)),
            InstallEvent::TempfileMade(Err(error)) => InstallEventView::TempfileMade(Err(error@)),
            InstallEvent::Responded(outcome) => InstallEventView::Responded(outcome_view(*outcome)),
            InstallEvent::Downloaded(outcome) => InstallEventView::Downloaded(
                outcome_view(*outcome),
            ),
            InstallEvent::InstallerExited(outcome) => InstallEventView::InstallerExited(
                outcome_view(*outcome),
            ),
        }
    }
}

/// What [`install`] asks the caller to do next.
#[derive(Debug, PartialEq, Eq)]
pub enum InstallAction {
    /// Nothing: the event was not the one awaited.
    Nothing,
    /// Set up the HTTP client.
    MakeClient,
    /// Send the request and report the release that comes back.
    Fetch(Request),
    /// Make a temporary file whose name begins and ends like this.
    MakeTempfile { prefix: String, suffix: String },
    /// Ask for what is at `url`.
    Request { url: String },
    /// Write the answer to the file at `path`.
    Save { path: String },
    /// Run `program` with `arguments` and wait for it to exit.
    Run { program: String, arguments: Vec<String> },
    /// Stop, with this result.
    Finish(Result<(), Error>),
}

/// What an [`InstallAction`] holds.
pub enum InstallActionView {
    Nothing,
    MakeClient,
    Fetch(RequestView),
    MakeTempfile { prefix: Seq<char>, suffix: Seq<char> },
    Request { url: Seq<char> },
    Save { path: Seq<char> },
    Run { program: Seq<char>, arguments: Seq<Seq<char>> },
    Finish(Result<(), ErrorView>),
}

impl View for InstallAction {
    type V = InstallActionView;

    open spec fn view(&self) -> InstallActionView {
        match self {
            InstallAction::Nothing => InstallActionView::Nothing,
            InstallAction::MakeClient => InstallActionView::MakeClient,
            InstallAction::Fetch(request) => InstallActionView::Fetch(request@),
            InstallAction::MakeTempfile { prefix, suffix } => InstallActionView::MakeTempfile {
                prefix: prefix@,
                suffix: suffix@,
            },
            InstallAction::Request { url } => InstallActionView::Request { url: url@ },
            InstallAction::Save { path } => InstallActionView::Save { path: path@ },
            InstallAction::Run { program, arguments } => InstallActionView::Run {
                program: program@,
                arguments: texts(arguments@),
            },
            InstallAction::Finish(outcome) => InstallActionView::Finish(outcome_view(*outcome)),
        }
    }
}

/// One step of the installation: the state it leads to, the progress notes to
/// print to standard error before anything else, and what to do then.
#[derive(Debug, PartialEq, Eq)]
pub struct InstallStep {
    pub state: InstallState,
    pub notes: Vec<String>,
    pub action: InstallAction,
}

/// What an [`InstallStep`] holds.
pub struct InstallStepView {
    pub state: InstallStateView,
    pub notes: Seq<Seq<char>>,
    pub action: InstallActionView,
}

impl View for InstallStep {
    type V = InstallStepView;

    open spec fn view(&self) -> InstallStepView {
        InstallStepView { state: self.state@, notes: texts(self.notes@), action: self.action@ }
    }
}

/// The notes that are printed: all of them when debugging, none otherwise.
pub open spec fn noted(debug: bool, notes: Seq<Seq<char>>) -> Seq<Seq<char>> {
    if debug {
        notes
    } else {
        Seq::empty()
    }
}

/// The end of the installation, with `outcome`.
pub open spec fn finished(outcome: Result<(), ErrorView>) -> InstallStepView {
    InstallStepView {
        state: InstallStateView::Finished,
        notes: Seq::empty(),
        action: InstallActionView::Finish(outcome),
    }
}

/// The step that the installation takes on `event` in `state`.
///
/// The client is set up, and the latest release of Cockatrice is asked for.
/// Its installer for `arch` is looked up by the ending of its name: with
/// exactly one such asset the installation goes on to make a temporary file,
/// to download the asset into it and to run it through `cmd /C`; otherwise it
/// ends with `MissingAsset`, and nothing is downloaded. An installer that exits
/// unsuccessfully ends the installation with `Installer`. A failure reported
/// by the caller ends the installation with that failure. An event that is not
/// the one awaited changes nothing. When `debug` is set, each step comes with
/// notes on what is about to happen.
pub open spec fn install_step(
    debug: bool,
    arch: Arch,
    state: InstallStateView,
    event: InstallEventView,
) -> InstallStepView {
    match (state, event) {
        (InstallStateView::Start, InstallEventView::Begin) => InstallStepView {
            state: InstallStateView::AwaitingClient,
            notes: noted(debug, seq!["making reqwest client"@]),
            action: InstallActionView::MakeClient,
        },
        (InstallStateView::AwaitingClient, InstallEventView::ClientMade(Ok(_))) => InstallStepView {
            state: InstallStateView::AwaitingRelease,
            notes: noted(debug, seq!["determining download URL"@]),
            action: InstallActionView::Fetch(latest_release_request(cockatrice_repo())),
        },
        (InstallStateView::AwaitingClient, InstallEventView::ClientMade(Err(error))) => finished(
            Err(error),
        ),
        (InstallStateView::AwaitingRelease, InstallEventView::ReleaseFetched(Ok(release))) => {
            match selected_asset(release.assets, platform_selector_view(arch)) {
                Some(asset) => InstallStepView {
                    state: InstallStateView::AwaitingTempfile {
                        download_url: asset.browser_download_url,
                    },
                    notes: noted(
                        debug,
                        seq![
                            "download URL is "@ + debug_text(asset.browser_download_url),
                            "making tempfile"@,
                        ],
                    ),
                    action: InstallActionView::MakeTempfile {
                        prefix: "Cockatrice"@,
                        suffix: ".exe"@,
                    },
                },
                None => finished(Err(ErrorView::Other(OtherError::MissingAsset))),
            }
        },
        (InstallStateView::AwaitingRelease, InstallEventView::ReleaseFetched(Err(error))) => {
            finished(Err(error))
        },
        (
            InstallStateView::AwaitingTempfile { download_url },
            InstallEventView::TempfileMade(Ok(path)),
        ) => InstallStepView {
            state: InstallStateView::AwaitingResponse { installer_path: path },
            notes: noted(debug, seq!["making download request"@]),
            action: InstallActionView::Request { url: download_url },
        },
        (
            InstallStateView::AwaitingTempfile { download_url },
            InstallEventView::TempfileMade(Err(error)),
        ) => finished(Err(error)),
        (
            InstallStateView::AwaitingResponse { installer_path },
            InstallEventView::Responded(Ok(_)),
        ) => InstallStepView {
            state: InstallStateView::AwaitingDownload { installer_path },
            notes: noted(debug, seq!["downloading installer"@]),
            action: InstallActionView::Save { path: installer_path },
        },
        (
            InstallStateView::AwaitingResponse { installer_path },
            InstallEventView::Responded(Err(error)),
        ) => finished(Err(error)),
        (
            InstallStateView::AwaitingDownload { installer_path },
            InstallEventView::Downloaded(Ok(_)),
        ) => InstallStepView {
            state: InstallStateView::AwaitingInstaller,
            notes: noted(
                debug,
                seq!["running installer, path is "@ + debug_text(installer_path)],
            ),
            action: InstallActionView::Run {
                program: "cmd"@,
                arguments: seq!["/C"@, installer_path],
            },
        },
        (
            InstallStateView::AwaitingDownload { installer_path },
            InstallEventView::Downloaded(Err(error)),
        ) => finished(Err(error)),
        (InstallStateView::AwaitingInstaller, InstallEventView::InstallerExited(Ok(success))) => {
            if success {
                finished(Ok(()))
            } else {
                finished(Err(ErrorView::Other(OtherError::Installer)))
            }
        },
        (InstallStateView::AwaitingInstaller, InstallEventView::InstallerExited(Err(error))) => {
            finished(Err(error))
        },
        _ => InstallStepView { state, notes: Seq::empty(), action: InstallActionView::Nothing },
    }
}

fn finish(outcome: Result<(), Error>) -> (step: InstallStep)
    ensures
        step@ == finished(outcome_view(outcome)),
{
    let step = InstallStep {
        state: InstallState::Finished,
        notes: Vec::new(),
        action: InstallAction::Finish(outcome),
    };
    assert(texts(step.notes@) =~= Seq::empty());
    step
}

fn one_note(debug: bool, note: String) -> (notes: Vec<String>)
    ensures
        texts(notes@) == noted(debug, seq![note@]),
{
    let mut notes: Vec<String> = Vec::new();
    if debug {
        notes.push(note);
    }
    notes
}

fn two_notes(debug: bool, first: String, second: String) -> (notes: Vec<String>)
    ensures
        texts(notes@) == noted(debug, seq![first@, second@]),
{
    let mut notes: Vec<String> = Vec::new();
    if debug {
        notes.push(first);
        notes.push(second);
    }
    notes
}

fn quoting_note(lead: &str, value: &str) -> (note: String)
    ensures
        note@ == lead@ + debug_text(value@),
{
    let mut note = String::from_str(lead);
    let quoted_value = quoted(value);
    note.append(quoted_value.as_str());
    note
}

/// Advances the download and installation of Cockatrice by one step: takes
/// what the caller reports and says what to do next.
pub fn install(debug: bool, arch: Arch, state: InstallState, event: InstallEvent) -> (step:
    InstallStep)
    ensures
        step@ == install_step(debug, arch, state@, event@),
{
    match (state, event) {
        (InstallState::Start, InstallEvent::Begin) => InstallStep {
            state: InstallState::AwaitingClient,
            notes: one_note(debug, String::from_str("making reqwest client")),
            action: InstallAction::MakeClient,
        },
        (InstallState::AwaitingClient, InstallEvent::ClientMade(Ok(_))) => InstallStep {
            state: InstallState::AwaitingRelease,
            notes: one_note(debug, String::from_str("determining download URL")),
            action: InstallAction::Fetch(repo().latest_release()),
        },
        (InstallState::AwaitingClient, InstallEvent::ClientMade(Err(error))) => finish(Err(error)),
        (InstallState::AwaitingRelease, InstallEvent::ReleaseFetched(Ok(release))) => {
            let selector = platform_selector(arch);
            match select_asset(&release.assets, &selector) {
                Some(asset) => {
                    let download_url = asset.browser_download_url.clone();
                    InstallStep {
                        notes: two_notes(
                            debug,
                            quoting_note("download URL is ", download_url.as_str()),
                            String::from_str("making tempfile"),
                        ),
                        state: InstallState::AwaitingTempfile { download_url },
                        action: InstallAction::MakeTempfile {
                            prefix: String::from_str("Cockatrice"),
                            suffix: String::from_str(".exe"),
                        },
                    }
                },
                None => finish(Err(Error::Other(OtherError::MissingAsset))),
            }
        },
        (InstallState::AwaitingRelease, InstallEvent::ReleaseFetched(Err(error))) => finish(
            Err(error),
        ),
        (InstallState::AwaitingTempfile { download_url }, InstallEvent::TempfileMade(Ok(path))) => {
            InstallStep {
                state: InstallState::AwaitingResponse { installer_path: path },
                notes: one_note(debug, String::from_str("making download request")),
                action: InstallAction::Request { url: download_url },
            }
        },
        (InstallState::AwaitingTempfile { .. }, InstallEvent::TempfileMade(Err(error))) => finish(
            Err(error),
        ),
        (InstallState::AwaitingResponse { installer_path }, InstallEvent::Responded(Ok(_))) => {
            let path = installer_path.clone();
            InstallStep {
                state: InstallState::AwaitingDownload { installer_path },
                notes: one_note(debug, String::from_str("downloading installer")),
                action: InstallAction::Save { path },
            }
        },
        (InstallState::AwaitingResponse { .. }, InstallEvent::Responded(Err(error))) => finish(
            Err(error),
        ),
        (InstallState::AwaitingDownload { installer_path }, InstallEvent::Downloaded(Ok(_))) => {
            let notes = one_note(
                debug,
                quoting_note("running installer, path is ", installer_path.as_str()),
            );
            let mut arguments: Vec<String> = Vec::new();
            arguments.push(String::from_str("/C"));
            arguments.push(installer_path);
            assert(texts(arguments@) =~= seq!["/C"@, installer_path@]);
            InstallStep {
                state: InstallState::AwaitingInstaller,
                notes,
                action: InstallAction::Run { program: String::from_str("cmd"), arguments },
            }
        },
        (InstallState::AwaitingDownload { .. }, InstallEvent::Downloaded(Err(error))) => finish(
            Err(error),
        ),
        (InstallState::AwaitingInstaller, InstallEvent::InstallerExited(Ok(success))) => {
            if success {
                finish(Ok(()))
            } else {
                finish(Err(Error::Other(OtherError::Installer)))
            }
        },
        (InstallState::AwaitingInstaller, InstallEvent::InstallerExited(Err(error))) => finish(
            Err(error),
        ),
        (state, _) => {
            let step = InstallStep { state, notes: Vec::new(), action: InstallAction::Nothing };
            assert(texts(step.notes@) =~= Seq::empty());
            step
        },
    }
}


/// A release that holds exactly one installer for the platform, the asset at
/// `i`, lets the installation go on towards the download of that asset.
pub proof fn lemma_install_follows_one_asset(
    debug: bool,
    arch: Arch,
    release: ReleaseView,
    i: int,
)
    requires
        0 <= i < release.assets.len(),
        platform_selector_view(arch).matches(release.assets[i].name),
        forall|j: int|
            0 <= j < release.assets.len() && j != i ==> !platform_selector_view(arch).matches(
                (#[trigger] release.assets[j]).name,
            ),
    ensures
        ({
            let step = install_step(
                debug,
                arch,
                InstallStateView::AwaitingRelease,
                InstallEventView::ReleaseFetched(Ok(release)),
            );
            &&& step.state == (InstallStateView::AwaitingTempfile {
                download_url: release.assets[i].browser_download_url,
            })
            &&& step.action is MakeTempfile
        }),
{
    lemma_one_match(release.assets, asset_test(platform_selector_view(arch)), i);
}

/// A release without an installer for the platform ends the installation with
/// `MissingAsset`.
pub proof fn lemma_install_needs_an_asset(debug: bool, arch: Arch, release: ReleaseView)
    requires
        forall|j: int|
            0 <= j < release.assets.len() ==> !platform_selector_view(arch).matches(
                (#[trigger] release.assets[j]).name,
            ),
    ensures
        install_step(
            debug,
            arch,
            InstallStateView::AwaitingRelease,
            InstallEventView::ReleaseFetched(Ok(release)),
        ) == finished(Err(ErrorView::Other(OtherError::MissingAsset))),
{
    lemma_no_match(release.assets, asset_test(platform_selector_view(arch)));
}

/// A release with more than one installer for the platform ends the
/// installation in the same way.
pub proof fn lemma_install_refuses_several_assets(
    debug: bool,
    arch: Arch,
    release: ReleaseView,
    i: int,
    j: int,
)
    requires
        0 <= i < j < release.assets.len(),
        platform_selector_view(arch).matches(release.assets[i].name),
        platform_selector_view(arch).matches(release.assets[j].name),
    ensures
        install_step(
            debug,
            arch,
            InstallStateView::AwaitingRelease,
            InstallEventView::ReleaseFetched(Ok(release)),
        ) == finished(Err(ErrorView::Other(OtherError::MissingAsset))),
{
    lemma_two_matches(release.assets, asset_test(platform_selector_view(arch)), i, j);
}

/// The installation comes to wait for its temporary file only by way of a
/// release from which the platform's selector picks one asset, and the address
/// it then holds is that asset's.
pub proof fn lemma_install_holds_selected_address(
    debug: bool,
    arch: Arch,
    state: InstallStateView,
    event: InstallEventView,
)
    requires
        install_step(debug, arch, state, event).state is AwaitingTempfile,
        !(state is AwaitingTempfile),
    ensures
        state == InstallStateView::AwaitingRelease,
        event matches InstallEventView::ReleaseFetched(Ok(release)) && selected_asset(
            release.assets,
            platform_selector_view(arch),
        ) matches Some(asset) && install_step(debug, arch, state, event).state == (
        InstallStateView::AwaitingTempfile { download_url: asset.browser_download_url }),
{
}

/// The only address that is ever asked for is the one held while waiting for
/// the temporary file.
pub proof fn lemma_install_requests_held_address(
    debug: bool,
    arch: Arch,
    state: InstallStateView,
    event: InstallEventView,
)
    requires
        install_step(debug, arch, state, event).action is Request,
    ensures
        (state matches InstallStateView::AwaitingTempfile { download_url } && install_step(
            debug,
            arch,
            state,
            event,
        ).action == (InstallActionView::Request { url: download_url })),
{
}

/// A request or a transfer that failed ends the installation with the failure
/// that was reported.
pub proof fn lemma_install_failure_is_reported(
    debug: bool,
    arch: Arch,
    installer_path: Seq<char>,
    error: ErrorView,
)
    ensures
        install_step(
            debug,
            arch,
            InstallStateView::AwaitingResponse { installer_path },
            InstallEventView::Responded(Err(error)),
        ) == finished(Err(error)),
        install_step(
            debug,
            arch,
            InstallStateView::AwaitingDownload { installer_path },
            InstallEventView::Downloaded(Err(error)),
        ) == finished(Err(error)),
{
}

/// The installer is run only once the caller has reported that it was written
/// in full, and it is the file that was written which is run.
pub proof fn lemma_install_runs_complete_file(
    debug: bool,
    arch: Arch,
    state: InstallStateView,
    event: InstallEventView,
)
    requires
        install_step(debug, arch, state, event).action is Run,
    ensures
        event matches InstallEventView::Downloaded(Ok(_)),
        (state matches InstallStateView::AwaitingDownload { installer_path } && install_step(
            debug,
            arch,
            state,
            event,
        ).action == (InstallActionView::Run {
            program: "cmd"@,
            arguments: seq!["/C"@, installer_path],
        })),
{
}

/// Success is reported only once the installer has run and exited
/// successfully.
pub proof fn lemma_install_success_needs_installer(
    debug: bool,
    arch: Arch,
    state: InstallStateView,
    event: InstallEventView,
)
    requires
        install_step(debug, arch, state, event).action matches InstallActionView::Finish(Ok(_)),
    ensures
        state == InstallStateView::AwaitingInstaller,
        event == InstallEventView::InstallerExited(Ok(true)),
{
}

/// Once the installation has ended, no event sets it going again.
pub proof fn lemma_install_stays_finished(debug: bool, arch: Arch, event: InstallEventView)
    ensures
        install_step(debug, arch, InstallStateView::Finished, event) == (InstallStepView {
            state: InstallStateView::Finished,
            notes: Seq::empty(),
            action: InstallActionView::Nothing,
        }),
{
}

/// Without `debug` no step carries a note.
pub proof fn lemma_install_is_quiet(arch: Arch, state: InstallStateView, event: InstallEventView)
    ensures
        install_step(false, arch, state, event).notes == Seq::<Seq<char>>::empty(),
{
}

} // verus!
