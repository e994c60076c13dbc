//! What passes between the decision logic and the caller that acts for it.

use vstd::prelude::*;

verus! {

/// One thing that the caller is asked to do. The caller does it and reports
/// the result as a [`Reply`].
#[derive(Clone, Debug, PartialEq, Eq)]
pub enum Action {
    /// Build a client bound to this server.
    Connect { server: String },
    /// Load the persisted credential from this place.
    LoadSession { path: String },
    /// Restore the credential just loaded into the client.
    RestoreSession,
    /// Log in with this account and secret.
    Login { account: String, secret: String },
    /// Export the client's session and persist it in this place,
    /// overwriting what is there.
    SaveSession { path: String },
    /// Synchronise once, asking for state only, and report the display
    /// names of the joined rooms in the client's order.
    Sync,
    /// Send this text to the room at this position of the reported list.
    Send { room: usize, text: String },
    /// Let this many seconds pass.
    Wait { seconds: u64 },
}

/// What came of an [`Action`].
#[derive(Clone, Debug, PartialEq, Eq)]
pub enum Reply {
    /// The action succeeded and has nothing to report.
    Done,
    /// The action failed.
    Failed,
    /// The synchronisation succeeded; these are the joined rooms' display
    /// names, `None` for a room without one.
    Rooms(Vec<Option<String>>),
}

impl Reply {
    /// Whether the reply reports plain success.
    pub fn is_done(&self) -> (done: bool)
        ensures
            done == (*self is Done),
    {
        match self {
            Reply::Done => true,
            _ => false,
        }
    }
}

} // verus!
