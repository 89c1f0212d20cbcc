//! Various utility functions.

use vstd::prelude::*;
use vstd::string::*;

verus! {

/// The file that holds the token with which the release tool authenticates
/// itself to GitHub.
pub const RELEASE_TOKEN_PATH: &'static str = "assets/release-token";

/// How many seconds the release tool waits for an answer, so that large
/// uploads can finish.
pub const RELEASE_TIMEOUT_SECS: u64 = 600;

/// How an HTTP client is to be set up.
#[derive(Debug, PartialEq, Eq)]
pub struct ClientConfig {
    /// The value of the `User-Agent` header of every request.
    pub user_agent: String,
    /// The value of the `Authorization` header of every request, if any.
    pub authorization: Option<String>,
    /// After how many seconds a request is given up, if ever.
    pub timeout_secs: Option<u64>,
}

/// What a [`ClientConfig`] holds.
pub struct ClientConfigView {
    pub user_agent: Seq<char>,
    pub authorization: Option<Seq<char>>,
    pub timeout_secs: Option<u64>,
}

impl View for ClientConfig {
    type V = ClientConfigView;

    open spec fn view(&self) -> ClientConfigView {
        ClientConfigView {
            user_agent: self.user_agent@,
            authorization: match self.authorization {
                Some(value) => Some(value@),
                None => None,
            },
            timeout_secs: self.timeout_secs,
        }
    }
}

/// The `User-Agent` of version `version` of the launcher.
pub open spec fn user_agent(version: Seq<char>) -> Seq<char> {
    "lore-seeker-desktop/"@ + version
}

fn user_agent_of(version: &str) -> (agent: String)
    ensures
        agent@ == user_agent(version@),
{
    let mut agent = String::from_str("lore-seeker-desktop/");
    agent.append(version);
    agent
}

/// Describes an HTTP client identified as version `version` of Lore Seeker
/// Desktop via the `User-Agent` header.
pub fn client(version: &str) -> (config: ClientConfig)
    ensures
        config@ == (ClientConfigView {
            user_agent: user_agent(version@),
            authorization: None,
            timeout_secs: None,
        }),
{
    ClientConfig { user_agent: user_agent_of(version), authorization: None, timeout_secs: None }
}

/// Describes an HTTP client which also authenticates itself to the GitHub API
/// with `token`, and which waits long enough for uploads.
pub fn release_client(version: &str, token: &str) -> (config: ClientConfig)
    ensures
        config@ == (ClientConfigView {
            user_agent: user_agent(version@),
            authorization: Some("token "@ + token@),
            timeout_secs: Some(RELEASE_TIMEOUT_SECS),
        }),
{
    let mut authorization = String::from_str("token ");
    authorization.append(token);
    ClientConfig {
        user_agent: user_agent_of(version),
        authorization: Some(authorization),
        timeout_secs: Some(RELEASE_TIMEOUT_SECS),
    }
}

/// The text with which the launcher gives up after a fatal error: the title
/// of the error dialog, a colon and a space, and the dialog's message.
pub fn fatal_message(title: &str, message: &str) -> (text: String)
    ensures
        text@ == title@ + ": "@ + message@,
{
    let mut text = String::from_str(title);
    text.append(": ");
    text.append(message);
    text
}

} // verus!
