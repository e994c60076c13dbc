//! The inputs of a notification run and their validation.

use vstd::prelude::*;

verus! {

/// Who sends, and where to. Loaded once and never changed.
#[derive(Clone, Debug, PartialEq, Eq)]
pub struct Config {
    /// The domain of the chat service.
    pub server_name: String,
    /// The full identifier of the sending account.
    pub user_id: String,
    /// The account's secret.
    pub password: String,
    /// The display name of the room that is to get the message.
    pub room_name: String,
}

/// Everything that a run is given.
#[derive(Clone, Debug, PartialEq, Eq)]
pub struct Inputs {
    pub config: Config,
    /// Where the session credential is persisted.
    pub session_file: String,
    /// The text to deliver.
    pub message: String,
}

/// A configuration with which no run is started.
#[derive(Clone, Copy, Debug, PartialEq, Eq)]
pub enum ConfigError {
    /// The account identifier does not parse.
    AccountId,
    /// The server address is not a well-formed server name.
    ServerAddress,
}

/// Whether `matrix_sdk::ruma::ServerName::parse` accepts the given text.
pub uninterp spec fn server_name_parses(text: Seq<char>) -> bool;

/// Whether `matrix_sdk::ruma::UserId::parse` accepts the given text.
pub uninterp spec fn user_id_parses(text: Seq<char>) -> bool;

/// Calls `matrix_sdk::ruma::ServerName::parse` and reports whether it
/// returned `Ok`. The parse validates the text and copies it; whether it
/// succeeds depends on the text alone.
#[verifier::external_body]
fn server_name_accepted(text: &str) -> (accepted: bool)
    ensures
        accepted == server_name_parses(text@),
{
    matrix_sdk::ruma::ServerName::parse(text).is_ok()
}

/// Calls `matrix_sdk::ruma::UserId::parse` and reports whether it returned
/// `Ok`. The parse validates the text and copies it; whether it succeeds
/// depends on the text alone.
#[verifier::external_body]
fn user_id_accepted(text: &str) -> (accepted: bool)
    ensures
        accepted == user_id_parses(text@),
{
    matrix_sdk::ruma::UserId::parse(text).is_ok()
}

/// The finding on a configuration whose account identifier and server
/// address were found acceptable or not. The account identifier is looked
/// at first.
pub open spec fn finding(account_ok: bool, server_ok: bool) -> Result<(), ConfigError> {
    if !account_ok {
        Err(ConfigError::AccountId)
    } else if !server_ok {
        Err(ConfigError::ServerAddress)
    } else {
        Ok(())
    }
}

impl ConfigError {
    /// The process exit status for a run refused on its configuration.
    pub fn exit_status(&self) -> (status: i32)
        ensures
            status == 1,
    {
        1
    }
}

impl Config {
    /// Whether a run may be started on this configuration.
    pub open spec fn acceptable(&self) -> bool {
        user_id_parses(self.user_id@) && server_name_parses(self.server_name@)
    }

    /// Turns the two parsers' answers into the finding on the configuration.
    pub fn judge(account_ok: bool, server_ok: bool) -> (found: Result<(), ConfigError>)
        ensures
            found == finding(account_ok, server_ok),
            found is Ok <==> account_ok && server_ok,
    {
        if !account_ok {
            Err(ConfigError::AccountId)
        } else if !server_ok {
            Err(ConfigError::ServerAddress)
        } else {
            Ok(())
        }
    }

    /// Checks the account identifier and the server address, as the chat
    /// library parses them. The password and the room name are free text.
    pub fn check(&self) -> (found: Result<(), ConfigError>)
        ensures
            found == finding(
                user_id_parses(self.user_id@),
                server_name_parses(self.server_name@),
            ),
            found is Ok <==> self.acceptable(),
    {
        let account_ok = user_id_accepted(self.user_id.as_str());
        let server_ok = server_name_accepted(self.server_name.as_str());
        Config::judge(account_ok, server_ok)
    }
}

} // verus!
