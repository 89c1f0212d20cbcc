//! The hourly check for updates, as the launcher's window drives it: what to
//! ask of the network and of the user, in which order, and what to tell the
//! user at the end.

use crate::update::{outcome_view, Error, ErrorView};
use vstd::prelude::*;
use vstd::string::*;

verus! {

/// How many seconds pass between two checks.
pub const CHECK_INTERVAL_SECS: u64 = 3600;

/// The title of the dialog that reports a failed check.
pub const CHECK_FAILED_TITLE: &'static str = "Lore Seeker: Error checking for updates";

/// The title of the dialog that reports a failed download.
pub const DOWNLOAD_FAILED_TITLE: &'static str = "Lore Seeker: Error downloading update";

/// The question put to the user when an update is available.
pub const DOWNLOAD_QUESTION: &'static str =
    "An update for Lore Seeker Desktop is available. Download now?";

/// What the user is told after the update has been downloaded.
pub const UPDATED_NOTICE: &'static str =
    "Update downloaded. This version of Lore Seeker Desktop will now close. Please open the new version.";

/// What the user is told when no place to save the update was chosen.
pub const NO_SAVE_PATH: &'static str = "Error determining save path";

/// What precedes the description of a failure to set up the HTTP client.
pub const CLIENT_FAILED_PREFIX: &'static str = "Error creating client: ";

/// Where the check for updates stands.
#[derive(Clone, Copy, Debug, PartialEq, Eq, Structural)]
pub enum TimerState {
    /// Between two checks.
    Idle,
    /// The HTTP client is being set up.
    AwaitingClient,
    /// The check itself is under way.
    AwaitingCheck,
    /// The user is being asked whether to download.
    AwaitingAnswer,
    /// The user is choosing where to save.
    AwaitingSavePath,
    /// The update is being downloaded.
    AwaitingDownload,
    /// The update was downloaded and the launcher is closing: no further
    /// checks are made.
    Stopped,
}

/// What the caller reports to [`update_timer`].
#[derive(Debug, PartialEq, Eq)]
pub enum TimerEvent {
    /// The timer fired.
    Tick,
    /// The HTTP client is ready, or could not be made; the text describes why.
    ClientMade(Result<(), String>),
    /// The check ended: `Ok(true)` for a build that is up to date.
    Checked(Result<bool, Error>),
    /// The user answered the question: `true` for yes.
    Answered(bool),
    /// The user chose where to save, or chose nothing.
    SavePathChosen(Option<String>),
    /// The download ended.
    Downloaded(Result<(), Error>),
}

/// What a [`TimerEvent`] holds.
pub enum TimerEventView {
    Tick,
    ClientMade(Result<(), Seq<char>>),
    Checked(Result<bool, ErrorView>),
    Answered(bool),
    SavePathChosen(Option<Seq<char>>),
    Downloaded(Result<(), ErrorView>),
}

impl View for TimerEvent {
    type V = TimerEventView;

    open spec fn view(&self) -> TimerEventView {
        match self {
            TimerEvent::Tick => TimerEventView::Tick,
            TimerEvent::ClientMade(Ok(())) => TimerEventView::ClientMade(Ok(())),
            TimerEvent::ClientMade(Err(text)) => TimerEventView::ClientMade(Err(text@)),
            TimerEvent::Checked(outcome) => TimerEventView::Checked(outcome_view(*outcome)),
            TimerEvent::Answered(yes) => TimerEventView::Answered(*yes),
            TimerEvent::SavePathChosen(Some(path)) => TimerEventView::SavePathChosen(Some(path@)),
            TimerEvent::SavePathChosen(None) => TimerEventView::SavePathChosen(None),
            TimerEvent::Downloaded(outcome) => TimerEventView::Downloaded(outcome_view(*outcome)),
        }
    }
}

/// How a check ends.
#[derive(Debug, PartialEq, Eq)]
pub enum TimerOutcome {
    /// The build is up to date. Nothing is shown; the timer goes on.
    UpToDate,
    /// Something failed. An error dialog with this title and message is shown;
    /// the timer goes on, and the next check starts afresh.
    Failed { title: String, message: String },
    /// The user declined the update. Nothing is shown; the timer goes on, and
    /// the next check asks again.
    Declined,
    /// The update was downloaded. The notice is shown and the launcher exits.
    Updated { notice: String },
}

/// What a [`TimerOutcome`] holds.
pub enum TimerOutcomeView {
    UpToDate,
    Failed { title: Seq<char>, message: Seq<char> },
    Declined,
    Updated { notice: Seq<char> },
}

impl View for TimerOutcome {
    type V = TimerOutcomeView;

    open spec fn view(&self) -> TimerOutcomeView {
        match self {
            TimerOutcome::UpToDate => TimerOutcomeView::UpToDate,
            TimerOutcome::Failed { title, message } => TimerOutcomeView::Failed {
                title: title@,
                message: message@,
            },
            TimerOutcome::Declined => TimerOutcomeView::Declined,
            TimerOutcome::Updated { notice } => TimerOutcomeView::Updated { notice: notice@ },
        }
    }
}

/// What [`update_timer`] asks the caller to do next.
#[derive(Debug, PartialEq, Eq)]
pub enum TimerAction {
    /// Nothing: the event was not the one awaited.
    Nothing,
    /// Set up the HTTP client.
    MakeClient,
    /// Fetch the latest release and the tags, and check the build against them.
    CheckForUpdate,
    /// Ask the user this yes/no question.
    Ask { question: String },
    /// Let the user choose where to save the update.
    ChooseSavePath,
    /// Download the update to this place.
    Download { save_path: String },
    /// End the check in this way.
    Finish(TimerOutcome),
}

/// What a [`TimerAction`] holds.
pub enum TimerActionView {
    Nothing,
    MakeClient,
    CheckForUpdate,
    Ask { question: Seq<char> },
    ChooseSavePath,
    Download { save_path: Seq<char> },
    Finish(TimerOutcomeView),
}

impl View for TimerAction {
    type V = TimerActionView;

    open spec fn view(&self) -> TimerActionView {
        match self {
            TimerAction::Nothing => TimerActionView::Nothing,
            TimerAction::MakeClient => TimerActionView::MakeClient,
            TimerAction::CheckForUpdate => TimerActionView::CheckForUpdate,
            TimerAction::Ask { question } => TimerActionView::Ask { question: question@ },
            TimerAction::ChooseSavePath => TimerActionView::ChooseSavePath,
            TimerAction::Download { save_path } => TimerActionView::Download {
                save_path: save_path@,
            },
            TimerAction::Finish(outcome) => TimerActionView::Finish(outcome@),
        }
    }
}

/// One step of the check: the state it leads to and what to do there.
#[derive(Debug, PartialEq, Eq)]
pub struct TimerStep {
    pub state: TimerState,
    pub action: TimerAction,
}

/// What a [`TimerStep`] holds.
pub struct TimerStepView {
    pub state: TimerState,
    pub action: TimerActionView,
}

impl View for TimerStep {
    type V = TimerStepView;

    open spec fn view(&self) -> TimerStepView {
        TimerStepView { state: self.state, action: self.action@ }
    }
}

/// The end of a check that failed while looking for an update.
pub open spec fn check_failed(message: Seq<char>) -> TimerStepView {
    TimerStepView {
        state: TimerState::Idle,
        action: TimerActionView::Finish(
            TimerOutcomeView::Failed { title: CHECK_FAILED_TITLE@, message },
        ),
    }
}

/// The step that the check for updates takes on `event` in `state`.
///
/// A tick sets up the client and starts the check. An up-to-date build ends
/// the check silently. Where an update is available the user is asked; a "no"
/// ends the check silently as well, a "yes" leads to the choice of a save path
/// and then to the download, after which the launcher exits. Every failure is
/// shown to the user. Whatever happens short of a finished download, the timer
/// goes on and the next tick checks afresh. An event that is not the one
/// awaited changes nothing.
pub open spec fn timer_step(state: TimerState, event: TimerEventView) -> TimerStepView {
    match (state, event) {
        (TimerState::Idle, TimerEventView::Tick) => TimerStepView {
            state: TimerState::AwaitingClient,
            action: TimerActionView::MakeClient,
        },
        (TimerState::AwaitingClient, TimerEventView::ClientMade(Ok(()))) => TimerStepView {
            state: TimerState::AwaitingCheck,
            action: TimerActionView::CheckForUpdate,
        },
        (TimerState::AwaitingClient, TimerEventView::ClientMade(Err(text))) => check_failed(
            CLIENT_FAILED_PREFIX@ + text,
        ),
        (TimerState::AwaitingCheck, TimerEventView::Checked(Ok(up_to_date))) => if up_to_date {
            TimerStepView {
                state: TimerState::Idle,
                action: TimerActionView::Finish(TimerOutcomeView::UpToDate),
            }
        } else {
            TimerStepView {
                state: TimerState::AwaitingAnswer,
                action: TimerActionView::Ask { question: DOWNLOAD_QUESTION@ },
            }
        },
        (TimerState::AwaitingCheck, TimerEventView::Checked(Err(error))) => check_failed(
            error.message(),
        ),
        (TimerState::AwaitingAnswer, TimerEventView::Answered(yes)) => if yes {
            TimerStepView {
                state: TimerState::AwaitingSavePath,
                action: TimerActionView::ChooseSavePath,
            }
        } else {
            TimerStepView {
                state: TimerState::Idle,
                action: TimerActionView::Finish(TimerOutcomeView::Declined),
            }
        },
        (TimerState::AwaitingSavePath, TimerEventView::SavePathChosen(Some(save_path))) => {
            TimerStepView {
                state: TimerState::AwaitingDownload,
                action: TimerActionView::Download { save_path },
            }
        },
        (TimerState::AwaitingSavePath, TimerEventView::SavePathChosen(None)) => check_failed(
            NO_SAVE_PATH@,
        ),
        (TimerState::AwaitingDownload, TimerEventView::Downloaded(Ok(()))) => TimerStepView {
            state: TimerState::Stopped,
            action: TimerActionView::Finish(TimerOutcomeView::Updated { notice: UPDATED_NOTICE@ }),
        },
        (TimerState::AwaitingDownload, TimerEventView::Downloaded(Err(error))) => TimerStepView {
            state: TimerState::Idle,
            action: TimerActionView::Finish(
                TimerOutcomeView::Failed { title: DOWNLOAD_FAILED_TITLE@, message: error.message() },
            ),
        },
        _ => TimerStepView { state, action: TimerActionView::Nothing },
    }
}

fn fail_check(message: String) -> (step: TimerStep)
    ensures
        step@ == check_failed(message@),
{
    TimerStep {
        state: TimerState::Idle,
        action: TimerAction::Finish(
            TimerOutcome::Failed { title: String::from_str(CHECK_FAILED_TITLE), message },
        ),
    }
}

/// Advances the check for updates by one step: takes what the caller reports
/// and says what to do next.
pub fn update_timer(state: TimerState, event: TimerEvent) -> (step: TimerStep)
    ensures
        step@ == timer_step(state, event@),
{
    match (state, event) {
        (TimerState::Idle, TimerEvent::Tick) => TimerStep {
            state: TimerState::AwaitingClient,
            action: TimerAction::MakeClient,
        },
        (TimerState::AwaitingClient, TimerEvent::ClientMade(Ok(()))) => TimerStep {
            state: TimerState::AwaitingCheck,
            action: TimerAction::CheckForUpdate,
        },
        (TimerState::AwaitingClient, TimerEvent::ClientMade(Err(text))) => {
            let mut message = String::from_str(CLIENT_FAILED_PREFIX);
            message.append(text.as_str());
            fail_check(message)
        },
        (TimerState::AwaitingCheck, TimerEvent::Checked(Ok(up_to_date))) => {
            if up_to_date {
                TimerStep {
                    state: TimerState::Idle,
                    action: TimerAction::Finish(TimerOutcome::UpToDate),
                }
            } else {
                TimerStep {
                    state: TimerState::AwaitingAnswer,
                    action: TimerAction::Ask { question: String::from_str(DOWNLOAD_QUESTION) },
                }
            }
        },
        (TimerState::AwaitingCheck, TimerEvent::Checked(Err(error))) => fail_check(
            error.message(),
        ),
        (TimerState::AwaitingAnswer, TimerEvent::Answered(yes)) => {
            if yes {
                TimerStep {
                    state: TimerState::AwaitingSavePath,
                    action: TimerAction::ChooseSavePath,
                }
            } else {
                TimerStep {
                    state: TimerState::Idle,
                    action: TimerAction::Finish(TimerOutcome::Declined),
                }
            }
        },
        (TimerState::AwaitingSavePath, TimerEvent::SavePathChosen(Some(save_path))) => TimerStep {
            state: TimerState::AwaitingDownload,
            action: TimerAction::Download { save_path },
        },
        (TimerState::AwaitingSavePath, TimerEvent::SavePathChosen(None)) => fail_check(
            String::from_str(NO_SAVE_PATH),
        ),
        (TimerState::AwaitingDownload, TimerEvent::Downloaded(Ok(()))) => TimerStep {
            state: TimerState::Stopped,
            action: TimerAction::Finish(
                TimerOutcome::Updated { notice: String::from_str(UPDATED_NOTICE) },
            ),
        },
        (TimerState::AwaitingDownload, TimerEvent::Downloaded(Err(error))) => TimerStep {
            state: TimerState::Idle,
            action: TimerAction::Finish(
                TimerOutcome::Failed {
                    title: String::from_str(DOWNLOAD_FAILED_TITLE),
                    message: error.message(),
                },
            ),
        },
        (state, _) => TimerStep { state, action: TimerAction::Nothing },
    }
}

/// The user is told that the update was downloaded, and the launcher is asked
/// to exit, only after the caller has reported a download that succeeded. A
/// failed download is never taken for a finished one.
pub proof fn lemma_updated_needs_download(state: TimerState, event: TimerEventView)
    requires
        timer_step(state, event).action matches TimerActionView::Finish(
            TimerOutcomeView::Updated { .. },
        ),
    ensures
        state == TimerState::AwaitingDownload,
        event matches TimerEventView::Downloaded(Ok(_)),
{
}

/// A failed download is shown to the user with the failure's own description,
/// and the timer goes on.
pub proof fn lemma_failed_download_is_shown(error: ErrorView)
    ensures
        timer_step(TimerState::AwaitingDownload, TimerEventView::Downloaded(Err(error))) == (
        TimerStepView {
            state: TimerState::Idle,
            action: TimerActionView::Finish(
                TimerOutcomeView::Failed { title: DOWNLOAD_FAILED_TITLE@, message: error.message() },
            ),
        }),
{
}

/// Nothing is downloaded unless the user said yes and then chose a place.
pub proof fn lemma_download_needs_consent(state: TimerState, event: TimerEventView)
    requires
        timer_step(state, event).action is Download,
    ensures
        state == TimerState::AwaitingSavePath,
        event matches TimerEventView::SavePathChosen(Some(path)) && timer_step(
            state,
            event,
        ).action == (TimerActionView::Download { save_path: path }),
{
}

/// The timer stops only when the caller has reported a download that
/// succeeded. No failure, no answer of the user and no other event ends the
/// hourly check.
pub proof fn lemma_only_update_stops(state: TimerState, event: TimerEventView)
    requires
        state != TimerState::Stopped,
        timer_step(state, event).state == TimerState::Stopped,
    ensures
        state == TimerState::AwaitingDownload,
        event matches TimerEventView::Downloaded(Ok(_)),
{
}

/// A user who declines the update is not asked for a save path, nothing is
/// downloaded, and the timer goes on: the next tick checks again.
pub proof fn lemma_decline_keeps_checking()
    ensures
        timer_step(TimerState::AwaitingAnswer, TimerEventView::Answered(false)) == (TimerStepView {
            state: TimerState::Idle,
            action: TimerActionView::Finish(TimerOutcomeView::Declined),
        }),
        timer_step(TimerState::Idle, TimerEventView::Tick) == (TimerStepView {
            state: TimerState::AwaitingClient,
            action: TimerActionView::MakeClient,
        }),
{
}

/// Every check that ends, ends between two checks or, after a finished
/// download, with the timer stopped.
pub proof fn lemma_finish_leaves_idle_or_stopped(state: TimerState, event: TimerEventView)
    requires
        timer_step(state, event).action matches TimerActionView::Finish(outcome),
    ensures
        (match timer_step(state, event).action {
            TimerActionView::Finish(TimerOutcomeView::Updated { .. }) => timer_step(
                state,
                event,
            ).state == TimerState::Stopped,
            _ => timer_step(state, event).state == TimerState::Idle,
        }),
{
}

/// Once the update is downloaded and the timer has stopped, no event sets a
/// check going again.
pub proof fn lemma_stopped_stays_stopped(event: TimerEventView)
    ensures
        timer_step(TimerState::Stopped, event) == (TimerStepView {
            state: TimerState::Stopped,
            action: TimerActionView::Nothing,
        }),
{
}

} // verus!
