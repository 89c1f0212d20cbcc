use lore_seeker_desktop::util::{client, fatal_message, release_client, ClientConfig};

#[test]
fn client_identifies_the_launcher() {
    assert_eq!(
        client("0.3.1"),
        ClientConfig {
            user_agent: String::from("lore-seeker-desktop/0.3.1"),
            authorization: None,
            timeout_secs: None,
        }
    );
}

#[test]
fn release_client_authenticates_and_waits_ten_minutes() {
    assert_eq!(
        release_client("0.3.1", "0123abcd"),
        ClientConfig {
            user_agent: String::from("lore-seeker-desktop/0.3.1"),
            authorization: Some(String::from("token 0123abcd")),
            timeout_secs: Some(600),
        }
    );
}

#[test]
fn fatal_message_joins_title_and_message() {
    assert_eq!(
        fatal_message("Lore Seeker: Error", "could not start"),
        "Lore Seeker: Error: could not start"
    );
    assert_eq!(fatal_message("", ""), ": ");
}
