use lore_seeker_desktop::github::{Commit, Release, Tag};
use lore_seeker_desktop::update::{update_check, Error};

fn release(tag_name: &str) -> Release {
    Release {
        assets: Vec::new(),
        body: String::new(),
        id: 1,
        name: String::from("Lore Seeker Desktop"),
        tag_name: String::from(tag_name),
        upload_url: String::new(),
    }
}

fn tag(name: &str, sha: &str) -> Tag {
    Tag { name: String::from(name), commit: Commit { sha: String::from(sha) } }
}

#[test]
fn build_of_the_tagged_commit_is_up_to_date() {
    let tags = vec![tag("v1.2.0", "abc123")];
    assert_eq!(update_check(&release("v1.2.0"), &tags, "abc123"), Ok(true));
}

#[test]
fn build_of_another_commit_has_an_update() {
    let tags = vec![tag("v1.2.0", "abc123")];
    assert_eq!(update_check(&release("v1.2.0"), &tags, "def456"), Ok(false));
}

#[test]
fn missing_tag_is_an_error() {
    let tags = vec![tag("v1.1.0", "abc123"), tag("v1.0.0", "000000")];
    assert_eq!(update_check(&release("v1.2.0"), &tags, "abc123"), Err(Error::TagNotFound));
    assert_eq!(update_check(&release("v1.2.0"), &Vec::new(), "abc123"), Err(Error::TagNotFound));
}

#[test]
fn repeated_tag_is_an_error() {
    let tags = vec![tag("v1.2.0", "abc123"), tag("v1.1.0", "999999"), tag("v1.2.0", "abc123")];
    assert_eq!(update_check(&release("v1.2.0"), &tags, "abc123"), Err(Error::TagNotFound));
}
