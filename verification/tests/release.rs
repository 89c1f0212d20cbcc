use lore_seeker_desktop::release::{
    check_command, check_order, release_name, release_tag, select_package, version_gate,
    ReleaseError,
};
use std::cmp::Ordering;

fn names(texts: &[&str]) -> Vec<String> {
    texts.iter().map(|text| String::from(*text)).collect()
}

#[test]
fn release_name_and_tag_hold_the_version() {
    assert_eq!(release_name("1.2.0"), "Lore Seeker Desktop 1.2.0");
    assert_eq!(release_tag("1.2.0"), "v1.2.0");
}

#[test]
fn check_order_passes_only_newer_versions() {
    assert_eq!(check_order(Ordering::Greater), Ok(()));
    assert_eq!(check_order(Ordering::Equal), Err(ReleaseError::SameVersion));
    assert_eq!(check_order(Ordering::Less), Err(ReleaseError::VersionRegression));
}

#[test]
fn version_gate_passes_a_newer_version() {
    assert_eq!(version_gate("1.3.0", "v1.2.0"), Ok(()));
    assert_eq!(version_gate("1.10.0", "v1.9.0"), Ok(()));
    assert_eq!(version_gate("1.0.0", "v1.0.0-rc.1"), Ok(()));
}

#[test]
fn version_gate_refuses_the_same_version() {
    assert_eq!(version_gate("1.2.0", "v1.2.0"), Err(ReleaseError::SameVersion));
}

#[test]
fn version_gate_refuses_an_older_version() {
    assert_eq!(version_gate("1.1.9", "v1.2.0"), Err(ReleaseError::VersionRegression));
    assert_eq!(version_gate("1.9.0", "v1.10.0"), Err(ReleaseError::VersionRegression));
}

#[test]
fn version_gate_leaves_build_metadata_aside() {
    assert_eq!(version_gate("1.2.0+b", "v1.2.0+a"), Err(ReleaseError::SameVersion));
    assert_eq!(version_gate("1.2.0", "v1.2.0+20240101"), Err(ReleaseError::SameVersion));
    assert_eq!(version_gate("1.2.1+a", "v1.2.0+z"), Ok(()));
}

#[test]
fn version_gate_orders_pre_releases() {
    assert_eq!(version_gate("1.0.0-rc.1", "v1.0.0"), Err(ReleaseError::VersionRegression));
    assert_eq!(version_gate("1.0.0-beta.11", "v1.0.0-beta.2"), Ok(()));
}

#[test]
fn version_gate_refuses_a_local_text_without_a_version() {
    assert!(matches!(version_gate("1.2", "v1.0.0"), Err(ReleaseError::SemVer(_))));
    assert!(matches!(version_gate("", "v1.0.0"), Err(ReleaseError::SemVer(_))));
    assert!(matches!(version_gate("next", "vnext"), Err(ReleaseError::SemVer(_))));
}

#[test]
fn version_gate_drops_the_first_character_of_the_tag() {
    assert_eq!(version_gate("2.0.0", "x1.0.0"), Ok(()));
    assert!(matches!(version_gate("2.0.0", "1.0.0"), Err(ReleaseError::SemVer(_))));
}

#[test]
fn version_gate_refuses_a_tag_without_a_version() {
    assert!(matches!(version_gate("1.2.0", "vnext"), Err(ReleaseError::SemVer(_))));
    assert!(matches!(version_gate("1.2.0", "v1.2"), Err(ReleaseError::SemVer(_))));
    assert!(matches!(version_gate("1.2.0", "v"), Err(ReleaseError::SemVer(_))));
}

#[test]
fn select_package_finds_the_package() {
    assert_eq!(select_package(&names(&["serde", "lore-seeker", "reqwest"])), Ok(1));
    assert_eq!(select_package(&names(&["lore-seeker"])), Ok(0));
}

#[test]
fn select_package_refuses_a_missing_or_repeated_package() {
    assert_eq!(select_package(&names(&["serde", "reqwest"])), Err(ReleaseError::MissingPackage));
    assert_eq!(select_package(&names(&[])), Err(ReleaseError::MissingPackage));
    assert_eq!(
        select_package(&names(&["lore-seeker", "serde", "lore-seeker"])),
        Err(ReleaseError::MissingPackage)
    );
    assert_eq!(
        select_package(&names(&["lore-seeker-desktop"])),
        Err(ReleaseError::MissingPackage)
    );
}

#[test]
fn check_command_reports_a_failed_command() {
    assert_eq!(check_command(true), Ok(()));
    assert_eq!(check_command(false), Err(ReleaseError::Command));
}
