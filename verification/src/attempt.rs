//! One delivery unit: authenticate, resolve the room, dispatch the message.
//!
//! The unit joins the authenticator, the room resolver and the dispatcher
//! into one state machine over the caller's replies. It ends with an
//! [`DeliveryOutcome`]; whether another unit follows is not decided here.

use vstd::prelude::*;
use crate::authenticator::{after_op, Auth, AuthOp, AuthStep};
use crate::config::Inputs;
use crate::dispatcher::{
    after_send, fresh, Dispatch, SendOp, SendStep, MAX_SENDS, SEND_PAUSE_SECS,
};
use crate::outcome::{Cause, DeliveryOutcome, Notice};
use crate::protocol::{Action, Reply};
use crate::resolver::{first_bearing, resolve_room};

verus! {

/// The state of one unit.
#[derive(Clone, Copy, Debug, PartialEq, Eq)]
pub enum Unit {
    /// The authenticator is at work.
    Authenticating(Auth),
    /// The synchronisation is under way.
    Syncing,
    /// A send to the room at this position is under way.
    Sending { room: usize, dispatch: Dispatch },
    /// The pause before the next send to that room is under way.
    Pausing { room: usize, dispatch: Dispatch },
    /// The unit is over.
    Finished(DeliveryOutcome),
}

/// What a unit wants next.
#[derive(Clone, Debug, PartialEq, Eq)]
pub enum UnitOp {
    /// The caller is to do this and reply.
    Do(Action),
    /// The unit has ended.
    End(DeliveryOutcome),
}

/// The unit's answer to one reply.
#[derive(Clone, Debug, PartialEq, Eq)]
pub struct UnitStep {
    pub next: Unit,
    pub notice: Option<Notice>,
    pub op: UnitOp,
}

/// The answer that ends the unit with `outcome`.
pub open spec fn end(outcome: DeliveryOutcome, notice: Option<Notice>) -> UnitStep {
    UnitStep { next: Unit::Finished(outcome), notice, op: UnitOp::End(outcome) }
}

/// The send of the message to the room at position `room`.
pub open spec fn send_to(room: usize, inputs: Inputs) -> Action {
    Action::Send { room, text: inputs.message }
}

/// The unit's answer to the authenticator's step: its operations are
/// handed to the caller with what they need from the inputs, a ready client
/// leads to the synchronisation, a failure ends the unit softly.
pub open spec fn after_auth(step: AuthStep, inputs: Inputs) -> UnitStep {
    let carry_on = |action: Action|
        UnitStep {
            next: Unit::Authenticating(step.next),
            notice: step.notice,
            op: UnitOp::Do(action),
        };
    match step.op {
        AuthOp::Connect => carry_on(Action::Connect { server: inputs.config.server_name }),
        AuthOp::LoadSession => carry_on(Action::LoadSession { path: inputs.session_file }),
        AuthOp::RestoreSession => carry_on(Action::RestoreSession),
        AuthOp::Login => carry_on(
            Action::Login { account: inputs.config.user_id, secret: inputs.config.password },
        ),
        AuthOp::SaveSession => carry_on(Action::SaveSession { path: inputs.session_file }),
        AuthOp::Ready => UnitStep {
            next: Unit::Syncing,
            notice: step.notice,
            op: UnitOp::Do(Action::Sync),
        },
        AuthOp::Fail(cause) => end(DeliveryOutcome::SoftFailure(cause), step.notice),
    }
}

/// The unit's answer to the reply to the synchronisation: the first joined
/// room that bears the configured name gets the first send; where the
/// synchronisation succeeded and no room bears the name, the room is
/// missing; where it did not succeed, the unit fails softly.
pub open spec fn after_sync(reply: Reply, inputs: Inputs) -> UnitStep {
    match reply {
        Reply::Rooms(names) => match first_bearing(names@, inputs.config.room_name@) {
            Some(room) => UnitStep {
                next: Unit::Sending { room, dispatch: fresh() },
                notice: None,
                op: UnitOp::Do(send_to(room, inputs)),
            },
            None => end(DeliveryOutcome::RoomNotFound, None),
        },
        _ => end(DeliveryOutcome::SoftFailure(Cause::Sync), None),
    }
}

/// The unit's answer to the dispatcher's step: a retry becomes the pause
/// that precedes it, the end of the dispatch ends the unit.
pub open spec fn after_dispatch(room: usize, step: SendStep) -> UnitStep {
    match step.op {
        SendOp::RetryAfter { seconds } => UnitStep {
            next: Unit::Pausing { room, dispatch: step.next },
            notice: step.notice,
            op: UnitOp::Do(Action::Wait { seconds }),
        },
        SendOp::Finish { delivered } => end(
            if delivered {
                DeliveryOutcome::Delivered
            } else {
                DeliveryOutcome::SoftFailure(Cause::Send)
            },
            step.notice,
        ),
    }
}

/// The unit's answer when, in `state`, the caller replies `reply` to the
/// action last asked for. Any reply but `Done` counts as the failure of an
/// operation of the authenticator or of a send; any reply but `Rooms` counts
/// as the failure of the synchronisation; a pause cannot fail.
pub open spec fn after_reply(state: Unit, reply: Reply, inputs: Inputs) -> UnitStep {
    match state {
        Unit::Authenticating(auth) => after_auth(after_op(auth, reply is Done), inputs),
        Unit::Syncing => after_sync(reply, inputs),
        Unit::Sending { room, dispatch } => after_dispatch(
            room,
            after_send(dispatch, reply is Done),
        ),
        Unit::Pausing { room, dispatch } => UnitStep {
            next: Unit::Sending { room, dispatch },
            notice: None,
            op: UnitOp::Do(send_to(room, inputs)),
        },
        Unit::Finished(outcome) => end(outcome, None),
    }
}

/// The state in which a unit starts, and the action that starts it.
pub open spec fn opening(inputs: Inputs) -> UnitStep {
    UnitStep {
        next: Unit::Authenticating(Auth::Connecting),
        notice: None,
        op: UnitOp::Do(Action::Connect { server: inputs.config.server_name }),
    }
}

impl Unit {
    /// Starts a unit: the caller is to build the client.
    pub fn start(inputs: &Inputs) -> (step: UnitStep)
        ensures
            step == opening(*inputs),
    {
        UnitStep {
            next: Unit::Authenticating(Auth::start()),
            notice: None,
            op: UnitOp::Do(Action::Connect { server: inputs.config.server_name.clone() }),
        }
    }

    /// Takes the reply to the action last asked for and decides what
    /// follows.
    pub fn on_reply(self, reply: &Reply, inputs: &Inputs) -> (step: UnitStep)
        ensures
            step == after_reply(self, *reply, *inputs),
    {
        match self {
            Unit::Authenticating(auth) => {
                let step = auth.on_result(reply.is_done());
                let action = match step.op {
                    AuthOp::Connect => Action::Connect {
                        server: inputs.config.server_name.clone(),
                    },
                    AuthOp::LoadSession => Action::LoadSession {
                        path: inputs.session_file.clone(),
                    },
                    AuthOp::RestoreSession => Action::RestoreSession,
                    AuthOp::Login => Action::Login {
                        account: inputs.config.user_id.clone(),
                        secret: inputs.config.password.clone(),
                    },
                    AuthOp::SaveSession => Action::SaveSession {
                        path: inputs.session_file.clone(),
                    },
                    AuthOp::Ready => {
                        return UnitStep {
                            next: Unit::Syncing,
                            notice: step.notice,
                            op: UnitOp::Do(Action::Sync),
                        };
                    },
                    AuthOp::Fail(cause) => {
                        return Unit::finish(DeliveryOutcome::SoftFailure(cause), step.notice);
                    },
                };
                UnitStep {
                    next: Unit::Authenticating(step.next),
                    notice: step.notice,
                    op: UnitOp::Do(action),
                }
            },
            Unit::Syncing => match reply {
                Reply::Rooms(names) => match resolve_room(names, &inputs.config.room_name) {
                    Some(room) => UnitStep {
                        next: Unit::Sending { room, dispatch: Dispatch::start() },
                        notice: None,
                        op: UnitOp::Do(Unit::send(room, inputs)),
                    },
                    None => Unit::finish(DeliveryOutcome::RoomNotFound, None),
                },
                _ => Unit::finish(DeliveryOutcome::SoftFailure(Cause::Sync), None),
            },
            Unit::Sending { room, dispatch } => {
                let step = dispatch.on_send(reply.is_done());
                match step.op {
                    SendOp::RetryAfter { seconds } => UnitStep {
                        next: Unit::Pausing { room, dispatch: step.next },
                        notice: step.notice,
                        op: UnitOp::Do(Action::Wait { seconds }),
                    },
                    SendOp::Finish { delivered } => {
                        if delivered {
                            Unit::finish(DeliveryOutcome::Delivered, step.notice)
                        } else {
                            Unit::finish(DeliveryOutcome::SoftFailure(Cause::Send), step.notice)
                        }
                    },
                }
            },
            Unit::Pausing { room, dispatch } => UnitStep {
                next: Unit::Sending { room, dispatch },
                notice: None,
                op: UnitOp::Do(Unit::send(room, inputs)),
            },
            Unit::Finished(outcome) => Unit::finish(outcome, None),
        }
    }

    fn finish(outcome: DeliveryOutcome, notice: Option<Notice>) -> (step: UnitStep)
        ensures
            step == end(outcome, notice),
    {
        UnitStep { next: Unit::Finished(outcome), notice, op: UnitOp::End(outcome) }
    }

    fn send(room: usize, inputs: &Inputs) -> (action: Action)
        ensures
            action == send_to(room, *inputs),
    {
        Action::Send { room, text: inputs.message.clone() }
    }
}

/// What a unit in `state` wants, reply by reply, when the caller replies as
/// `replies` tell. Nothing is wanted once the unit has ended.
pub open spec fn run(state: Unit, replies: Seq<Reply>, inputs: Inputs) -> Seq<UnitOp>
    decreases replies.len(),
{
    if replies.len() == 0 || state is Finished {
        Seq::empty()
    } else {
        let step = after_reply(state, replies[0], inputs);
        seq![step.op] + run(step.next, replies.drop_first(), inputs)
    }
}

/// Whether `op` asks the caller to log in.
pub open spec fn asks_login(op: UnitOp) -> bool {
    match op {
        UnitOp::Do(Action::Login { .. }) => true,
        _ => false,
    }
}

/// Everything that a unit wants from its start, the building of the client
/// included.
pub open spec fn run_from_start(replies: Seq<Reply>, inputs: Inputs) -> Seq<UnitOp> {
    seq![opening(inputs).op] + run(opening(inputs).next, replies, inputs)
}

/// A unit whose client is built and whose persisted credential loads and
/// is restored never asks for a login. It has the restored session
/// persisted where it was loaded from and, whatever comes of that,
/// synchronises next.
pub proof fn law_unit_prefers_persisted_session(replies: Seq<Reply>, inputs: Inputs)
    requires
        replies.len() >= 4,
        replies[0] is Done,
        replies[1] is Done,
        replies[2] is Done,
    ensures
        run_from_start(replies, inputs).subrange(0, 5) == seq![
            UnitOp::Do(Action::Connect { server: inputs.config.server_name }),
            UnitOp::Do(Action::LoadSession { path: inputs.session_file }),
            UnitOp::Do(Action::RestoreSession),
            UnitOp::Do(Action::SaveSession { path: inputs.session_file }),
            UnitOp::Do(Action::Sync),
        ],
        forall|at: int|
            0 <= at < run_from_start(replies, inputs).len() ==> !asks_login(
                #[trigger] run_from_start(replies, inputs)[at],
            ),
{
    let r1 = replies.drop_first();
    let r2 = r1.drop_first();
    let r3 = r2.drop_first();
    let r4 = r3.drop_first();
    assert(r1[0] == replies[1]);
    assert(r2[0] == replies[2]);
    assert(r3[0] == replies[3]);
    lemma_unfold(Unit::Authenticating(Auth::Connecting), replies, inputs);
    lemma_unfold(Unit::Authenticating(Auth::Loading), r1, inputs);
    lemma_unfold(Unit::Authenticating(Auth::Restoring), r2, inputs);
    lemma_unfold(Unit::Authenticating(Auth::Saving), r3, inputs);
    lemma_never_logs_in_again(Unit::Syncing, r4, inputs);
    let ops = run_from_start(replies, inputs);
    assert(ops.subrange(0, 5) =~= seq![
        UnitOp::Do(Action::Connect { server: inputs.config.server_name }),
        UnitOp::Do(Action::LoadSession { path: inputs.session_file }),
        UnitOp::Do(Action::RestoreSession),
        UnitOp::Do(Action::SaveSession { path: inputs.session_file }),
        UnitOp::Do(Action::Sync),
    ]);
    assert forall|at: int| 0 <= at < ops.len() implies !asks_login(#[trigger] ops[at]) by {
        if at >= 5 {
            assert(ops[at] == run(Unit::Syncing, r4, inputs)[at - 5]);
        }
    }
}

/// A unit whose client is built and whose loaded credential fails to
/// restore asks at once for a login with the configured account and
/// secret, and where that login succeeds has the new session persisted
/// before it goes on.
pub proof fn law_unit_logs_in_after_failed_restore(replies: Seq<Reply>, inputs: Inputs)
    requires
        replies.len() >= 3,
        replies[0] is Done,
        replies[1] is Done,
        !(replies[2] is Done),
    ensures
        run_from_start(replies, inputs).len() >= 4,
        run_from_start(replies, inputs)[3] == UnitOp::Do(
            Action::Login { account: inputs.config.user_id, secret: inputs.config.password },
        ),
        replies.len() >= 4 && replies[3] is Done ==> run_from_start(replies, inputs).len() >= 5
            && run_from_start(replies, inputs)[4] == UnitOp::Do(
            Action::SaveSession { path: inputs.session_file },
        ),
        replies.len() >= 4 && !(replies[3] is Done) ==> run_from_start(replies, inputs).len() == 5
            && run_from_start(replies, inputs)[4] == UnitOp::End(
            DeliveryOutcome::SoftFailure(Cause::Login),
        ),
{
    let r1 = replies.drop_first();
    let r2 = r1.drop_first();
    let r3 = r2.drop_first();
    assert(r1[0] == replies[1]);
    assert(r2[0] == replies[2]);
    lemma_unfold(Unit::Authenticating(Auth::Connecting), replies, inputs);
    lemma_unfold(Unit::Authenticating(Auth::Loading), r1, inputs);
    lemma_unfold(Unit::Authenticating(Auth::Restoring), r2, inputs);
    if replies.len() >= 4 {
        assert(r3[0] == replies[3]);
        lemma_unfold(Unit::Authenticating(Auth::LoggingIn), r3, inputs);
        if !(replies[3] is Done) {
            reveal_with_fuel(run, 2);
        }
    }
}

/// Once a unit has left its authenticator behind, it asks for no login.
proof fn lemma_never_logs_in_again(state: Unit, replies: Seq<Reply>, inputs: Inputs)
    requires
        !(state is Authenticating),
    ensures
        forall|at: int|
            0 <= at < run(state, replies, inputs).len() ==> !asks_login(
                #[trigger] run(state, replies, inputs)[at],
            ),
    decreases replies.len(),
{
    if replies.len() > 0 && !(state is Finished) {
        let step = after_reply(state, replies[0], inputs);
        lemma_unfold(state, replies, inputs);
        lemma_never_logs_in_again(step.next, replies.drop_first(), inputs);
        let rest = run(step.next, replies.drop_first(), inputs);
        assert forall|at: int| 0 <= at < run(state, replies, inputs).len() implies !asks_login(
            #[trigger] run(state, replies, inputs)[at],
        ) by {
            if at >= 1 {
                assert(run(state, replies, inputs)[at] == rest[at - 1]);
            }
        }
    }
}

/// `rounds` times a pause of the dispatcher's length and the send to `room`
/// that follows it.
pub open spec fn retries(rounds: nat, room: usize, inputs: Inputs) -> Seq<UnitOp> {
    Seq::new(
        2 * rounds,
        |i: int|
            if i % 2 == 0 {
                UnitOp::Do(Action::Wait { seconds: SEND_PAUSE_SECS })
            } else {
                UnitOp::Do(send_to(room, inputs))
            },
    )
}

proof fn lemma_unfold(state: Unit, replies: Seq<Reply>, inputs: Inputs)
    requires
        replies.len() > 0,
        !(state is Finished),
    ensures
        run(state, replies, inputs) == seq![after_reply(state, replies[0], inputs).op] + run(
            after_reply(state, replies[0], inputs).next,
            replies.drop_first(),
            inputs,
        ),
{
}

/// From the first send on, a unit whose sends fail `failures` times and
/// whose next send succeeds, or whose budget is then used up, asks for a
/// pause and a send after each failure that leaves some budget, and ends
/// when the dispatch does.
proof fn lemma_sends(
    room: usize,
    attempt: u8,
    failures: nat,
    replies: Seq<Reply>,
    inputs: Inputs,
)
    requires
        1 <= attempt,
        attempt + failures <= MAX_SENDS,
        2 * failures <= replies.len(),
        forall|i: int| 0 <= i < failures ==> !(#[trigger] replies[2 * i] is Done),
    ensures
        run(Unit::Sending { room, dispatch: Dispatch::Trying { attempt } }, replies, inputs)
            == retries(failures, room, inputs) + run(
            Unit::Sending {
                room,
                dispatch: Dispatch::Trying { attempt: (attempt + failures) as u8 },
            },
            replies.skip(2 * (failures as int)),
            inputs,
        ),
    decreases failures,
{
    let state = Unit::Sending { room, dispatch: Dispatch::Trying { attempt } };
    if failures == 0 {
        assert(replies.skip(0) =~= replies);
        assert(retries(0, room, inputs) + run(state, replies, inputs) =~= run(
            state,
            replies,
            inputs,
        ));
    } else {
        assert(!(replies[2 * 0int] is Done));
        let paused = Unit::Pausing {
            room,
            dispatch: Dispatch::Trying { attempt: (attempt + 1) as u8 },
        };
        let r1 = replies.drop_first();
        let r2 = r1.drop_first();
        lemma_unfold(state, replies, inputs);
        lemma_unfold(paused, r1, inputs);
        assert(r2 =~= replies.skip(2));
        assert forall|i: int| 0 <= i < failures - 1 implies !(#[trigger] r2[2 * i] is Done) by {
            assert(r2[2 * i] == replies[2 * (i + 1)]);
        }
        lemma_sends(room, (attempt + 1) as u8, (failures - 1) as nat, r2, inputs);
        assert(r2.skip(2 * (failures - 1)) =~= replies.skip(2 * (failures as int)));
        let wait = UnitOp::Do(Action::Wait { seconds: SEND_PAUSE_SECS });
        let send = UnitOp::Do(send_to(room, inputs));
        assert(seq![wait] + (seq![send] + retries((failures - 1) as nat, room, inputs))
            =~= retries(failures, room, inputs));
        assert(run(state, replies, inputs) =~= retries(failures, room, inputs) + run(
            Unit::Sending {
                room,
                dispatch: Dispatch::Trying { attempt: (attempt + failures) as u8 },
            },
            replies.skip(2 * (failures as int)),
            inputs,
        ));
    }
}

/// A unit that has synchronised and found the room sends to the first room
/// that bears the configured name. Where the send fails `failures` times,
/// fewer than the budget, and then succeeds, the unit asks for exactly
/// `failures + 1` sends of the message to that room, with one pause of the
/// fixed length between each two, and ends delivered.
pub proof fn law_unit_delivers_after_failures(
    names: Vec<Option<String>>,
    failures: nat,
    sends: Seq<Reply>,
    inputs: Inputs,
)
    requires
        first_bearing(names@, inputs.config.room_name@) is Some,
        failures < MAX_SENDS,
        2 * failures < sends.len(),
        forall|i: int| 0 <= i < failures ==> !(#[trigger] sends[2 * i] is Done),
        sends[2 * (failures as int)] is Done,
    ensures
        ({
            let room = first_bearing(names@, inputs.config.room_name@)->0;
            run(Unit::Syncing, seq![Reply::Rooms(names)] + sends, inputs) == seq![
                UnitOp::Do(send_to(room, inputs)),
            ] + retries(failures, room, inputs) + seq![UnitOp::End(DeliveryOutcome::Delivered)]
        }),
{
    let room = first_bearing(names@, inputs.config.room_name@)->0;
    let replies = seq![Reply::Rooms(names)] + sends;
    let last = Unit::Sending {
        room,
        dispatch: Dispatch::Trying { attempt: (1 + failures) as u8 },
    };
    lemma_unfold(Unit::Syncing, replies, inputs);
    assert(replies.drop_first() =~= sends);
    lemma_sends(room, 1, failures, sends, inputs);
    let tail = sends.skip(2 * (failures as int));
    assert(tail[0] == sends[2 * (failures as int)]);
    lemma_unfold(last, tail, inputs);
    reveal_with_fuel(run, 2);
    assert(run(last, tail, inputs) =~= seq![UnitOp::End(DeliveryOutcome::Delivered)]);
}

/// A unit that has synchronised and found the room, and whose every send
/// fails, asks for exactly as many sends as the budget allows, with a pause
/// between each two and none after the last, and ends in a soft failure.
pub proof fn law_unit_exhausts_sends(
    names: Vec<Option<String>>,
    sends: Seq<Reply>,
    inputs: Inputs,
)
    requires
        first_bearing(names@, inputs.config.room_name@) is Some,
        sends.len() >= 2 * MAX_SENDS - 1,
        forall|i: int| 0 <= i < MAX_SENDS ==> !(#[trigger] sends[2 * i] is Done),
    ensures
        ({
            let room = first_bearing(names@, inputs.config.room_name@)->0;
            run(Unit::Syncing, seq![Reply::Rooms(names)] + sends, inputs) == seq![
                UnitOp::Do(send_to(room, inputs)),
            ] + retries((MAX_SENDS - 1) as nat, room, inputs) + seq![
                UnitOp::End(DeliveryOutcome::SoftFailure(Cause::Send)),
            ]
        }),
{
    let room = first_bearing(names@, inputs.config.room_name@)->0;
    let replies = seq![Reply::Rooms(names)] + sends;
    let before: nat = (MAX_SENDS - 1) as nat;
    let last = Unit::Sending {
        room,
        dispatch: Dispatch::Trying { attempt: MAX_SENDS },
    };
    lemma_unfold(Unit::Syncing, replies, inputs);
    assert(replies.drop_first() =~= sends);
    assert forall|i: int| 0 <= i < before implies !(#[trigger] sends[2 * i] is Done) by {}
    lemma_sends(room, 1, before, sends, inputs);
    let tail = sends.skip(2 * (before as int));
    assert(tail[0] == sends[2 * (before as int)]);
    lemma_unfold(last, tail, inputs);
    reveal_with_fuel(run, 2);
    assert(run(last, tail, inputs) =~= seq![
        UnitOp::End(DeliveryOutcome::SoftFailure(Cause::Send)),
    ]);
}

/// A unit whose synchronisation succeeds and reports no room of the
/// configured name ends at once with the room missing: it asks for no
/// send. A unit whose synchronisation does not succeed ends at once in a
/// soft failure.
pub proof fn law_unit_without_room_sends_nothing(replies: Seq<Reply>, inputs: Inputs)
    requires
        replies.len() > 0,
    ensures
        match replies[0] {
            Reply::Rooms(names) => first_bearing(names@, inputs.config.room_name@) is None ==> run(
                Unit::Syncing,
                replies,
                inputs,
            ) == seq![UnitOp::End(DeliveryOutcome::RoomNotFound)],
            _ => run(Unit::Syncing, replies, inputs) == seq![
                UnitOp::End(DeliveryOutcome::SoftFailure(Cause::Sync)),
            ],
        },
{
    reveal_with_fuel(run, 2);
    lemma_unfold(Unit::Syncing, replies, inputs);
    match replies[0] {
        Reply::Rooms(names) => {
            if first_bearing(names@, inputs.config.room_name@) is None {
                assert(run(Unit::Syncing, replies, inputs) =~= seq![
                    UnitOp::End(DeliveryOutcome::RoomNotFound),
                ]);
            }
        },
        _ => {
            assert(run(Unit::Syncing, replies, inputs) =~= seq![
                UnitOp::End(DeliveryOutcome::SoftFailure(Cause::Sync)),
            ]);
        },
    }
}

/// The most replies that a unit in `state` can still take before it ends.
pub open spec fn replies_left(state: Unit) -> nat {
    match state {
        Unit::Authenticating(auth) => match auth {
            Auth::Connecting => 11,
            Auth::Loading => 10,
            Auth::Restoring => 9,
            Auth::LoggingIn => 8,
            Auth::Saving => 7,
            Auth::Ready => 7,
            Auth::Failed(_) => 1,
        },
        Unit::Syncing => 6,
        Unit::Sending { room, dispatch } => sends_left(dispatch),
        Unit::Pausing { room, dispatch } => sends_left(dispatch) + 1,
        Unit::Finished(_) => 1,
    }
}

/// The most replies that a unit can still take whose dispatch is in
/// `dispatch` and has a send under way.
pub open spec fn sends_left(dispatch: Dispatch) -> nat {
    match dispatch {
        Dispatch::Trying { attempt } => if attempt < MAX_SENDS {
            (2 * (MAX_SENDS - attempt) + 1) as nat
        } else {
            1
        },
        Dispatch::Done { .. } => 1,
    }
}

/// The most replies that any unit takes from its start to its end.
pub open spec fn longest_unit() -> nat {
    11
}

/// Every reply brings a unit nearer to its end, and no unit is longer
/// than `longest_unit`.
pub proof fn law_unit_ends(state: Unit, reply: Reply, inputs: Inputs)
    ensures
        1 <= replies_left(state) <= longest_unit(),
        replies_left(opening(inputs).next) == longest_unit(),
        after_reply(state, reply, inputs).op is Do ==> replies_left(
            after_reply(state, reply, inputs).next,
        ) < replies_left(state),
{
}

} // verus!
