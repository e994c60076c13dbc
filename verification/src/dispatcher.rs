//! The message dispatcher: one message, a short bounded number of sends, a
//! fixed pause between two of them.
//!
//! The dispatcher never sends anything itself. It is told how each send
//! ended and answers with what to do next.

use vstd::prelude::*;
use crate::outcome::Notice;

verus! {

/// The number of sends that one dispatch may make.
pub const MAX_SENDS: u8 = 3;

/// The pause between a failed send and the next one, in seconds.
pub const SEND_PAUSE_SECS: u64 = 1;

/// The state of one dispatch.
#[derive(Clone, Copy, Debug, PartialEq, Eq)]
pub enum Dispatch {
    /// The send with this number, counted from one, is under way.
    Trying { attempt: u8 },
    /// The dispatch is over.
    Done { delivered: bool },
}

/// What the dispatcher asks for after a send.
#[derive(Clone, Copy, Debug, PartialEq, Eq)]
pub enum SendOp {
    /// Wait this long, then send again.
    RetryAfter { seconds: u64 },
    /// Stop sending and report this result.
    Finish { delivered: bool },
}

/// The dispatcher's answer to the end of one send.
#[derive(Clone, Copy, Debug, PartialEq, Eq)]
pub struct SendStep {
    pub next: Dispatch,
    pub notice: Option<Notice>,
    pub op: SendOp,
}

/// The state in which the first send is under way.
pub open spec fn fresh() -> Dispatch {
    Dispatch::Trying { attempt: 1 }
}

/// The dispatcher's answer when, in `state`, a send ended with success
/// (`sent`) or failure.
///
/// A success ends the dispatch at once. A failure is logged under the
/// send's number; it is followed by a pause and another send unless the
/// budget of sends is used up, in which case the dispatch ends undelivered
/// without a pause.
pub open spec fn after_send(state: Dispatch, sent: bool) -> SendStep {
    match state {
        Dispatch::Trying { attempt } => {
            if sent {
                SendStep {
                    next: Dispatch::Done { delivered: true },
                    notice: None,
                    op: SendOp::Finish { delivered: true },
                }
            } else if attempt < MAX_SENDS {
                SendStep {
                    next: Dispatch::Trying { attempt: (attempt + 1) as u8 },
                    notice: Some(Notice::SendFailed { attempt }),
                    op: SendOp::RetryAfter { seconds: SEND_PAUSE_SECS },
                }
            } else {
                SendStep {
                    next: Dispatch::Done { delivered: false },
                    notice: Some(Notice::SendFailed { attempt }),
                    op: SendOp::Finish { delivered: false },
                }
            }
        },
        Dispatch::Done { delivered } => SendStep {
            next: state,
            notice: None,
            op: SendOp::Finish { delivered },
        },
    }
}

/// What a dispatch in `state` asks for, send by send, when its sends end as
/// `results` tell (`true` for a success). The dispatch makes one send per
/// entry of the result, so the length of the result is the number of sends,
/// and the number of `RetryAfter` in it is the number of pauses, each of
/// which lies between two sends.
pub open spec fn run(state: Dispatch, results: Seq<bool>) -> Seq<SendOp>
    decreases results.len(),
{
    if results.len() == 0 || state is Done {
        Seq::empty()
    } else {
        let step = after_send(state, results[0]);
        seq![step.op] + run(step.next, results.drop_first())
    }
}

impl Dispatch {
    /// Starts a dispatch: the caller is to make the first send.
    pub fn start() -> (state: Dispatch)
        ensures
            state == fresh(),
    {
        Dispatch::Trying { attempt: 1 }
    }

    /// Takes the end of the send under way and decides what follows.
    pub fn on_send(self, sent: bool) -> (step: SendStep)
        ensures
            step == after_send(self, sent),
    {
        match self {
            Dispatch::Trying { attempt } => {
                if sent {
                    SendStep {
                        next: Dispatch::Done { delivered: true },
                        notice: None,
                        op: SendOp::Finish { delivered: true },
                    }
                } else {
                    let notice = Some(Notice::SendFailed { attempt });
                    if attempt < MAX_SENDS {
                        SendStep {
                            next: Dispatch::Trying { attempt: attempt + 1 },
                            notice,
                            op: SendOp::RetryAfter { seconds: SEND_PAUSE_SECS },
                        }
                    } else {
                        SendStep {
                            next: Dispatch::Done { delivered: false },
                            notice,
                            op: SendOp::Finish { delivered: false },
                        }
                    }
                }
            },
            Dispatch::Done { delivered } => SendStep {
                next: self,
                notice: None,
                op: SendOp::Finish { delivered },
            },
        }
    }
}

/// `count` pauses of the dispatcher's fixed length.
pub open spec fn pauses(count: nat) -> Seq<SendOp> {
    Seq::new(count, |i: int| SendOp::RetryAfter { seconds: SEND_PAUSE_SECS })
}

/// A send operation that fails exactly `failures` times, fewer than the
/// budget, and then succeeds is called `failures + 1` times, with one pause
/// after each failure, and the dispatch reports delivery. What the operation
/// would do on later calls does not matter.
pub proof fn law_delivers_after_failures(failures: nat, results: Seq<bool>)
    requires
        failures < MAX_SENDS,
        failures < results.len(),
        forall|i: int| 0 <= i < failures ==> !results[i],
        results[failures as int],
    ensures
        run(fresh(), results) == pauses(failures).push(SendOp::Finish { delivered: true }),
        run(fresh(), results).len() == failures + 1,
{
    reveal_with_fuel(run, 5);
    let r1 = results.drop_first();
    if failures >= 1 {
        assert(!results[0]);
        assert(r1[0] == results[1]);
        if failures >= 2 {
            assert(!results[1]);
            assert(r1.drop_first()[0] == results[2]);
        }
    }
    assert(run(fresh(), results) =~= pauses(failures).push(SendOp::Finish { delivered: true }));
}

/// A send operation that always fails is called exactly as often as the
/// budget allows, with a pause after each call but the last, and the
/// dispatch reports no delivery.
pub proof fn law_exhausts_budget(results: Seq<bool>)
    requires
        results.len() >= MAX_SENDS,
        forall|i: int| 0 <= i < results.len() ==> !results[i],
    ensures
        run(fresh(), results) == pauses((MAX_SENDS - 1) as nat).push(
            SendOp::Finish { delivered: false },
        ),
        run(fresh(), results).len() == MAX_SENDS,
{
    reveal_with_fuel(run, 5);
    let r1 = results.drop_first();
    let r2 = r1.drop_first();
    assert(!results[0]);
    assert(r1[0] == results[1]);
    assert(r2[0] == results[2]);
    assert(run(fresh(), results) =~= pauses((MAX_SENDS - 1) as nat).push(
        SendOp::Finish { delivered: false },
    ));
}

} // verus!
