//! The vocabulary shared by the parts of a notification run: how one delivery
//! unit can end, how the whole run can end, and what is worth a log line.

use vstd::prelude::*;

verus! {

/// Why a delivery unit ended without delivering although the room may exist.
#[derive(Clone, Copy, Debug, PartialEq, Eq)]
pub enum Cause {
    /// No client could be built for the server.
    Connect,
    /// The interactive login was refused or did not complete.
    Login,
    /// The state synchronisation failed.
    Sync,
    /// Every send of the dispatcher's budget failed.
    Send,
}

/// How one delivery unit ended.
#[derive(Clone, Copy, Debug, PartialEq, Eq)]
pub enum DeliveryOutcome {
    /// The message was accepted by the room.
    Delivered,
    /// Synchronisation succeeded and no joined room bears the target name.
    RoomNotFound,
    /// A failure that another unit may not meet.
    SoftFailure(Cause),
}

/// How the whole run ended.
#[derive(Clone, Copy, Debug, PartialEq, Eq)]
pub enum Verdict {
    /// Some unit delivered the message.
    Delivered,
    /// The last permitted unit failed softly.
    GivenUp,
    /// A unit found no room of the target name.
    RoomNotFound,
}

/// An event that the caller should write to its log.
#[derive(Clone, Copy, Debug, PartialEq, Eq)]
pub enum Notice {
    /// The persisted credential could not be loaded.
    SessionNotLoaded,
    /// The loaded credential was not accepted by the server.
    SessionNotRestored,
    /// The current session could not be persisted.
    SessionNotSaved,
    /// The send with this number (counted from one within its unit) failed.
    SendFailed { attempt: u8 },
    /// The unit with this number (counted from one) failed softly.
    TrialFailed { trial: u8, cause: Cause },
    /// No joined room bears the target name.
    RoomMissing,
    /// The run ends undelivered after its last permitted unit.
    GivingUp,
}

impl Verdict {
    /// The process exit status of a run that ends so. It is one for a
    /// missing room and zero otherwise: giving up is no error exit.
    pub open spec fn status(self) -> i32 {
        match self {
            Verdict::Delivered => 0i32,
            Verdict::GivenUp => 0i32,
            Verdict::RoomNotFound => 1i32,
        }
    }

    /// The log line that goes with ending on this verdict, if any.
    pub open spec fn farewell(self) -> Option<Notice> {
        match self {
            Verdict::Delivered => None,
            Verdict::GivenUp => Some(Notice::GivingUp),
            Verdict::RoomNotFound => Some(Notice::RoomMissing),
        }
    }

    /// The process exit status of a run that ends so.
    pub fn exit_status(&self) -> (status: i32)
        ensures
            status == self.status(),
            status != 0 <==> *self == Verdict::RoomNotFound,
    {
        match self {
            Verdict::Delivered => 0,
            Verdict::GivenUp => 0,
            Verdict::RoomNotFound => 1,
        }
    }

    /// The log line that goes with ending so, if any.
    pub fn last_words(&self) -> (notice: Option<Notice>)
        ensures
            notice == self.farewell(),
    {
        match self {
            Verdict::Delivered => None,
            Verdict::GivenUp => Some(Notice::GivingUp),
            Verdict::RoomNotFound => Some(Notice::RoomMissing),
        }
    }
}

} // verus!
