use lore_seeker_desktop::github::{Method, Payload, Release, ReleaseAsset, Request};
use lore_seeker_desktop::platform::Arch;
use lore_seeker_desktop::trice::{
    install, platform_suffix, Error, InstallAction, InstallEvent, InstallState, InstallStep,
    OtherError,
};

fn release_with(names: &[&str]) -> Release {
    Release {
        assets: names
            .iter()
            .map(|name| ReleaseAsset {
                name: String::from(*name),
                browser_download_url: format!("https://example.org/{}", name),
            })
            .collect(),
        body: String::new(),
        id: 11,
        name: String::from("Cockatrice 2.9.0"),
        tag_name: String::from("2023-09-14-Release-2.9.0"),
        upload_url: String::new(),
    }
}

fn failed(error: Error) -> InstallStep {
    InstallStep {
        state: InstallState::Finished,
        notes: Vec::new(),
        action: InstallAction::Finish(Err(error)),
    }
}

fn notes(texts: &[&str]) -> Vec<String> {
    texts.iter().map(|text| String::from(*text)).collect()
}

#[test]
fn platform_suffix_names_the_installer_per_architecture() {
    assert_eq!(platform_suffix(Arch::X86), "win32.exe");
    assert_eq!(platform_suffix(Arch::X86_64), "win64.exe");
}

#[test]
fn install_begins_with_the_client() {
    let step = install(true, Arch::X86_64, InstallState::Start, InstallEvent::Begin);
    assert_eq!(
        step,
        InstallStep {
            state: InstallState::AwaitingClient,
            notes: notes(&["making reqwest client"]),
            action: InstallAction::MakeClient,
        }
    );
}

#[test]
fn install_asks_for_the_latest_cockatrice_release() {
    let step =
        install(true, Arch::X86_64, InstallState::AwaitingClient, InstallEvent::ClientMade(Ok(())));
    assert_eq!(
        step,
        InstallStep {
            state: InstallState::AwaitingRelease,
            notes: notes(&["determining download URL"]),
            action: InstallAction::Fetch(Request {
                method: Method::Get,
                url: String::from(
                    "https://api.github.com/repos/Cockatrice/Cockatrice/releases/latest"
                ),
                query: Vec::new(),
                payload: Payload::Empty,
            }),
        }
    );
}

#[test]
fn install_selects_the_installer_by_suffix() {
    let release = release_with(&[
        "Cockatrice-2.9.0-macOS.dmg",
        "Cockatrice-2.9.0-win32.exe",
        "Cockatrice-2.9.0-win64.exe",
    ]);
    let step = install(
        true,
        Arch::X86_64,
        InstallState::AwaitingRelease,
        InstallEvent::ReleaseFetched(Ok(release)),
    );
    assert_eq!(
        step,
        InstallStep {
            state: InstallState::AwaitingTempfile {
                download_url: String::from("https://example.org/Cockatrice-2.9.0-win64.exe"),
            },
            notes: notes(&[
                "download URL is \"https://example.org/Cockatrice-2.9.0-win64.exe\"",
                "making tempfile",
            ]),
            action: InstallAction::MakeTempfile {
                prefix: String::from("Cockatrice"),
                suffix: String::from(".exe"),
            },
        }
    );
}

#[test]
fn install_on_thirty_two_bit_selects_the_other_installer() {
    let release = release_with(&["Cockatrice-2.9.0-win32.exe", "Cockatrice-2.9.0-win64.exe"]);
    let step = install(
        false,
        Arch::X86,
        InstallState::AwaitingRelease,
        InstallEvent::ReleaseFetched(Ok(release)),
    );
    assert_eq!(
        step.state,
        InstallState::AwaitingTempfile {
            download_url: String::from("https://example.org/Cockatrice-2.9.0-win32.exe"),
        }
    );
}

#[test]
fn install_without_a_matching_asset_fails_before_any_download() {
    let release = release_with(&["Cockatrice-2.9.0-macOS.dmg", "Cockatrice-2.9.0-win32.exe"]);
    let step = install(
        true,
        Arch::X86_64,
        InstallState::AwaitingRelease,
        InstallEvent::ReleaseFetched(Ok(release)),
    );
    assert_eq!(step, failed(Error::Other(OtherError::MissingAsset)));
    let after = install(
        true,
        Arch::X86_64,
        step.state,
        InstallEvent::TempfileMade(Ok(String::from("C:\\Temp\\Cockatrice1.exe"))),
    );
    assert_eq!(
        after,
        InstallStep {
            state: InstallState::Finished,
            notes: Vec::new(),
            action: InstallAction::Nothing,
        }
    );
}

#[test]
fn install_with_several_matching_assets_fails() {
    let release = release_with(&["Cockatrice-2.9.0-win64.exe", "Cockatrice-2.8.0-win64.exe"]);
    let step = install(
        false,
        Arch::X86_64,
        InstallState::AwaitingRelease,
        InstallEvent::ReleaseFetched(Ok(release)),
    );
    assert_eq!(step, failed(Error::Other(OtherError::MissingAsset)));
}

#[test]
fn install_requests_the_selected_address() {
    let step = install(
        true,
        Arch::X86_64,
        InstallState::AwaitingTempfile { download_url: String::from("https://example.org/i.exe") },
        InstallEvent::TempfileMade(Ok(String::from("C:\\Temp\\Cockatrice1.exe"))),
    );
    assert_eq!(
        step,
        InstallStep {
            state: InstallState::AwaitingResponse {
                installer_path: String::from("C:\\Temp\\Cockatrice1.exe"),
            },
            notes: notes(&["making download request"]),
            action: InstallAction::Request { url: String::from("https://example.org/i.exe") },
        }
    );
}

#[test]
fn install_saves_the_answer_to_the_temporary_file() {
    let step = install(
        true,
        Arch::X86_64,
        InstallState::AwaitingResponse { installer_path: String::from("/tmp/Cockatrice1.exe") },
        InstallEvent::Responded(Ok(())),
    );
    assert_eq!(
        step,
        InstallStep {
            state: InstallState::AwaitingDownload {
                installer_path: String::from("/tmp/Cockatrice1.exe"),
            },
            notes: notes(&["downloading installer"]),
            action: InstallAction::Save { path: String::from("/tmp/Cockatrice1.exe") },
        }
    );
}

#[test]
fn install_runs_the_installer_through_the_shell() {
    let step = install(
        true,
        Arch::X86_64,
        InstallState::AwaitingDownload {
            installer_path: String::from("C:\\Temp\\Cockatrice1.exe"),
        },
        InstallEvent::Downloaded(Ok(())),
    );
    assert_eq!(
        step,
        InstallStep {
            state: InstallState::AwaitingInstaller,
            notes: notes(&["running installer, path is \"C:\\\\Temp\\\\Cockatrice1.exe\""]),
            action: InstallAction::Run {
                program: String::from("cmd"),
                arguments: vec![String::from("/C"), String::from("C:\\Temp\\Cockatrice1.exe")],
            },
        }
    );
}

#[test]
fn install_succeeds_when_the_installer_does() {
    let step = install(
        true,
        Arch::X86_64,
        InstallState::AwaitingInstaller,
        InstallEvent::InstallerExited(Ok(true)),
    );
    assert_eq!(
        step,
        InstallStep {
            state: InstallState::Finished,
            notes: Vec::new(),
            action: InstallAction::Finish(Ok(())),
        }
    );
}

#[test]
fn install_fails_when_the_installer_does() {
    let step = install(
        true,
        Arch::X86_64,
        InstallState::AwaitingInstaller,
        InstallEvent::InstallerExited(Ok(false)),
    );
    assert_eq!(step, failed(Error::Other(OtherError::Installer)));
}

#[test]
fn install_reports_each_outside_failure() {
    let reqwest = || Error::Reqwest(String::from("connection reset"));
    let io = || Error::Io(String::from("access denied"));
    let path = || String::from("/tmp/Cockatrice1.exe");
    let cases = vec![
        (InstallState::AwaitingClient, InstallEvent::ClientMade(Err(reqwest())), reqwest()),
        (InstallState::AwaitingRelease, InstallEvent::ReleaseFetched(Err(reqwest())), reqwest()),
        (
            InstallState::AwaitingTempfile { download_url: String::from("https://example.org") },
            InstallEvent::TempfileMade(Err(io())),
            io(),
        ),
        (
            InstallState::AwaitingResponse { installer_path: path() },
            InstallEvent::Responded(Err(reqwest())),
            reqwest(),
        ),
        (
            InstallState::AwaitingDownload { installer_path: path() },
            InstallEvent::Downloaded(Err(reqwest())),
            reqwest(),
        ),
        (InstallState::AwaitingInstaller, InstallEvent::InstallerExited(Err(io())), io()),
    ];
    for (state, event, error) in cases {
        assert_eq!(install(true, Arch::X86_64, state, event), failed(error));
    }
}

#[test]
fn install_without_debug_prints_nothing() {
    let first = install(false, Arch::X86_64, InstallState::Start, InstallEvent::Begin);
    assert_eq!(first.notes, Vec::<String>::new());
    assert_eq!(first.action, InstallAction::MakeClient);
    let release = release_with(&["Cockatrice-2.9.0-win64.exe"]);
    let step = install(
        false,
        Arch::X86_64,
        InstallState::AwaitingRelease,
        InstallEvent::ReleaseFetched(Ok(release)),
    );
    assert_eq!(step.notes, Vec::<String>::new());
    let run = install(
        false,
        Arch::X86_64,
        InstallState::AwaitingDownload { installer_path: String::from("/tmp/c.exe") },
        InstallEvent::Downloaded(Ok(())),
    );
    assert_eq!(run.notes, Vec::<String>::new());
}

#[test]
fn install_ignores_events_out_of_turn() {
    let step = install(true, Arch::X86_64, InstallState::Start, InstallEvent::Downloaded(Ok(())));
    assert_eq!(
        step,
        InstallStep { state: InstallState::Start, notes: Vec::new(), action: InstallAction::Nothing }
    );
    let held = install(
        true,
        Arch::X86_64,
        InstallState::AwaitingTempfile { download_url: String::from("https://example.org") },
        InstallEvent::InstallerExited(Ok(true)),
    );
    assert_eq!(
        held,
        InstallStep {
            state: InstallState::AwaitingTempfile {
                download_url: String::from("https://example.org"),
            },
            notes: Vec::new(),
            action: InstallAction::Nothing,
        }
    );
}

#[test]
fn install_runs_from_start_to_end() {
    let mut state = InstallState::Start;
    let events = vec![
        InstallEvent::Begin,
        InstallEvent::ClientMade(Ok(())),
        InstallEvent::ReleaseFetched(Ok(release_with(&["Cockatrice-2.9.0-win64.exe"]))),
        InstallEvent::TempfileMade(Ok(String::from("/tmp/Cockatrice1.exe"))),
        InstallEvent::Responded(Ok(())),
        InstallEvent::Downloaded(Ok(())),
        InstallEvent::InstallerExited(Ok(true)),
    ];
    let mut printed = Vec::new();
    let mut last = InstallAction::Nothing;
    for event in events {
        let step = install(true, Arch::X86_64, state, event);
        printed.extend(step.notes);
        state = step.state;
        last = step.action;
    }
    assert_eq!(state, InstallState::Finished);
    assert_eq!(last, InstallAction::Finish(Ok(())));
    assert_eq!(
        printed,
        notes(&[
            "making reqwest client",
            "determining download URL",
            "download URL is \"https://example.org/Cockatrice-2.9.0-win64.exe\"",
            "making tempfile",
            "making download request",
            "downloading installer",
            "running installer, path is \"/tmp/Cockatrice1.exe\"",
        ])
    );
}

#[test]
fn install_error_messages() {
    assert_eq!(Error::Other(OtherError::Installer).message(), "Cockatrice Setup failed.");
    assert_eq!(
        Error::Other(OtherError::MissingAsset).message(),
        "Could not find download link for Cockatrice."
    );
    assert_eq!(Error::Io(String::from("access denied")).message(), "access denied");
    assert_eq!(Error::Reqwest(String::from("timed out")).message(), "timed out");
}

#[test]
fn other_error_converts_into_error() {
    assert_eq!(Error::from(OtherError::Installer), Error::Other(OtherError::Installer));
    let converted: Error = OtherError::MissingAsset.into();
    assert_eq!(converted, Error::Other(OtherError::MissingAsset));
}
