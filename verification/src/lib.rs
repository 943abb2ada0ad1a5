//! Projection of CI workflow runs (run, job, step) into a tree of tracing
//! spans: a stable trace identity per run, timestamps re-based in
//! development mode, one span per run, job and step, a diagnostic excerpt on
//! failed steps, and a ledger of the runs that were submitted.

use vstd::prelude::*;
use vstd::string::*;

pub mod clock;
pub mod excerpt;
pub mod github;
pub mod history;
pub mod identity;
pub mod poll;
pub mod span;
pub mod text;
pub mod traces;
pub mod webhook;

verus! {

/// What the program learns once, when it starts, and hands to whatever
/// needs it.
#[derive(Clone, Debug)]
pub struct Settings {
    /// The token that authenticates the requests to the provider's API.
    pub api_token: String,
    /// When the program started.
    pub program_start: clock::Timestamp,
}

/// The token that authenticates the requests to the provider's API.
pub fn get_api_token(settings: &Settings) -> (token: &String)
    ensures
        token == settings.api_token,
{
    &settings.api_token
}

/// When the program started.
pub fn get_program_start(settings: &Settings) -> (start: clock::Timestamp)
    ensures
        start == settings.program_start,
{
    settings.program_start
}

/// The port on which deliveries are received unless another is asked for.
pub const DEFAULT_PORT: u32 = 34484;

/// How many of the most recent runs a polling cycle looks at unless another
/// number is asked for.
pub const DEFAULT_COUNT: u32 = 10;

/// The directory under which the ledger keeps its markers.
pub const PREFIX: &'static str = "record";

/// Where the API token is taken from.
#[derive(Clone, Debug)]
pub enum TokenSource {
    /// The environment holds the token itself.
    Environment(String),
    /// The token is in the file at this path.
    CredentialsFile(String),
    /// Nothing says where the token is.
    Missing,
}

/// Decides where the API token is taken from: from the environment where it
/// holds the token itself; else from the file `github` in the credentials
/// directory, where the environment names one; else from nowhere.
pub fn api_token_source(token: Option<String>, credentials_directory: Option<String>) -> (out:
    TokenSource)
    ensures
        token is Some ==> out is Environment && out->Environment_0@ == token.unwrap()@,
        token is None && credentials_directory is Some ==> out is CredentialsFile
            && out->CredentialsFile_0@ == credentials_directory.unwrap()@ + "/github"@,
        token is None && credentials_directory is None ==> out is Missing,
{
    match token {
        Some(token) => TokenSource::Environment(token),
        None => match credentials_directory {
            Some(directory) => {
                let mut path = directory;
                path.append("/github");
                TokenSource::CredentialsFile(path)
            },
            None => TokenSource::Missing,
        },
    }
}

/// The token that a credentials file holds: its contents without the white
/// space around them, such as the line feed that an editor leaves.
pub fn token_from_file(contents: &str) -> (out: String)
    ensures
        out@ == text::trimmed(contents@),
{
    text::trim(contents)
}

} // verus!
