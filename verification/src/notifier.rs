//! The whole run: units under the orchestrator's give-up policy, as one
//! state machine over the caller's replies.
//!
//! The caller starts a [`Notifier`], carries out the action it is given,
//! hands the reply to [`Notifier::step`], and goes on so until it is told
//! to exit.

use vstd::prelude::*;
use crate::attempt::{end, law_unit_ends, longest_unit, opening, Unit, UnitOp, UnitStep};
use crate::authenticator::Auth;
use crate::config::{finding, server_name_parses, user_id_parses, ConfigError, Inputs};
use crate::dispatcher::{Dispatch, MAX_SENDS};
use crate::orchestrator::{after_unit, Run, RunOp, MAX_TRIALS, TRIAL_REST_SECS};
use crate::outcome::{DeliveryOutcome, Notice, Verdict};
use crate::protocol::{Action, Reply};

verus! {

/// What the unit under way is doing, or that none is under way.
#[derive(Clone, Copy, Debug, PartialEq, Eq)]
pub enum Phase {
    /// A unit is under way.
    Working(Unit),
    /// The rest between two units is under way.
    Resting,
}

/// How far a run has come.
#[derive(Clone, Copy, Debug, PartialEq, Eq)]
pub struct Progress {
    pub run: Run,
    pub phase: Phase,
}

/// What the caller is told to do next.
#[derive(Clone, Debug, PartialEq, Eq)]
pub enum Command {
    /// Do this and reply.
    Do(Action),
    /// End the process with this status.
    Exit { status: i32 },
}

/// The notifier's answer to one reply: what to log, in order, and what to
/// do then.
#[derive(Clone, Debug, PartialEq, Eq)]
pub struct Step {
    pub notices: Vec<Notice>,
    pub command: Command,
}

/// The log lines, none or one, that a notice stands for.
pub open spec fn noted(notice: Option<Notice>) -> Seq<Notice> {
    match notice {
        Some(line) => seq![line],
        None => Seq::empty(),
    }
}

/// The progress of a run of which nothing has happened but the request to
/// build the first client.
pub open spec fn initial() -> Progress {
    Progress {
        run: crate::orchestrator::fresh(),
        phase: Phase::Working(Unit::Authenticating(Auth::Connecting)),
    }
}

/// The progress, the log lines and the command that follow when a unit
/// answers `unit` in a run that is in state `run`.
///
/// While the unit goes on, so does the run. When the unit ends, the
/// orchestrator decides: a rest and then another unit, or the exit. The
/// log lines are the unit's, then the orchestrator's, then the one that
/// goes with the verdict.
pub open spec fn after_unit_step(run: Run, unit: UnitStep) -> (Progress, Seq<Notice>, Command) {
    match unit.op {
        UnitOp::Do(action) => (
            Progress { run, phase: Phase::Working(unit.next) },
            noted(unit.notice),
            Command::Do(action),
        ),
        UnitOp::End(outcome) => {
            let decision = after_unit(run, outcome);
            match decision.op {
                RunOp::RetryAfter { seconds } => (
                    Progress { run: decision.next, phase: Phase::Resting },
                    noted(unit.notice) + noted(decision.notice),
                    Command::Do(Action::Wait { seconds }),
                ),
                RunOp::Stop(verdict) => (
                    Progress { run: decision.next, phase: Phase::Working(unit.next) },
                    noted(unit.notice) + noted(decision.notice) + noted(verdict.farewell()),
                    Command::Exit { status: verdict.status() },
                ),
            }
        },
    }
}

/// The progress, the log lines and the command that follow when, at
/// `progress`, the caller replies `reply` to the action last commanded.
///
/// A run that has stopped stays stopped and commands the same exit again.
/// The reply to a rest starts the next unit. Every other reply goes to the
/// unit under way.
pub open spec fn after_reply(progress: Progress, reply: Reply, inputs: Inputs) -> (
    Progress,
    Seq<Notice>,
    Command,
) {
    match progress.run {
        Run::Stopped(verdict) => (
            progress,
            Seq::empty(),
            Command::Exit { status: verdict.status() },
        ),
        Run::Attempting { trial } => match progress.phase {
            Phase::Resting => after_unit_step(progress.run, opening(inputs)),
            Phase::Working(unit) => after_unit_step(
                progress.run,
                crate::attempt::after_reply(unit, reply, inputs),
            ),
        },
    }
}

/// The state that a run at `progress` reaches when the caller replies as
/// `replies` tell.
pub open spec fn advance(progress: Progress, replies: Seq<Reply>, inputs: Inputs) -> Progress
    decreases replies.len(),
{
    if replies.len() == 0 {
        progress
    } else {
        advance(after_reply(progress, replies[0], inputs).0, replies.drop_first(), inputs)
    }
}

/// The units that a run in state `run` may still start after the one under
/// way.
pub open spec fn units_left(run: Run) -> nat {
    match run {
        Run::Attempting { trial } => if trial < MAX_TRIALS {
            (MAX_TRIALS - trial) as nat
        } else {
            0
        },
        Run::Stopped(_) => 0,
    }
}

/// The most replies that a run at `progress` can still take before it
/// stops: what is left of the unit under way, and for each later unit its
/// rest and its longest course.
pub open spec fn replies_left(progress: Progress) -> nat {
    match progress.run {
        Run::Stopped(_) => 0,
        Run::Attempting { trial } => {
            let later = units_left(progress.run) * (1 + longest_unit());
            match progress.phase {
                Phase::Working(unit) => later + crate::attempt::replies_left(unit),
                Phase::Resting => later + 1 + longest_unit(),
            }
        },
    }
}

/// Whether `progress` is one that a run can come to: the units counted are
/// within the budget, and a unit that is under way has not ended, counts
/// its sends within their budget, and has handed on the client as soon as
/// the authenticator was done with it.
pub open spec fn attainable(progress: Progress) -> bool {
    match progress.run {
        Run::Attempting { trial } => {
            &&& 1 <= trial <= MAX_TRIALS
            &&& match progress.phase {
                Phase::Resting => trial >= 2,
                Phase::Working(unit) => match unit {
                    Unit::Authenticating(auth) => !(auth is Ready) && !(auth is Failed),
                    Unit::Syncing => true,
                    Unit::Sending { room, dispatch } => counting(dispatch),
                    Unit::Pausing { room, dispatch } => counting(dispatch),
                    Unit::Finished(_) => false,
                },
            }
        },
        Run::Stopped(_) => true,
    }
}

/// Whether a dispatch has a send within the budget under way.
pub open spec fn counting(dispatch: Dispatch) -> bool {
    match dispatch {
        Dispatch::Trying { attempt } => 1 <= attempt <= MAX_SENDS,
        Dispatch::Done { .. } => false,
    }
}

/// A run never leaves what is attainable: it starts there, and no reply
/// takes it out of it. So no run counts more units than the budget allows,
/// nor more sends in a unit than theirs.
pub proof fn law_progress_stays_attainable(progress: Progress, reply: Reply, inputs: Inputs)
    ensures
        attainable(initial()),
        attainable(progress) ==> attainable(after_reply(progress, reply, inputs).0),
{
}

/// The exit is commanded exactly when the run has stopped. Its status is
/// that of the verdict, which is one where the room is missing and zero
/// where the message was delivered or the run was given up. A run that has
/// stopped stays stopped on the same verdict and logs nothing more.
pub proof fn law_exit_goes_with_verdict(progress: Progress, reply: Reply, inputs: Inputs)
    ensures
        ({
            let (next, notices, command) = after_reply(progress, reply, inputs);
            &&& command is Exit <==> next.run is Stopped
            &&& next.run matches Run::Stopped(verdict) ==> {
                &&& command == Command::Exit { status: verdict.status() }
                &&& verdict.status() == (if verdict == Verdict::RoomNotFound {
                    1i32
                } else {
                    0i32
                })
            }
            &&& progress.run is Stopped ==> next == progress && notices == Seq::<Notice>::empty()
        }),
{
}

/// What the end of a unit brings in a run whose unit number `trial` is
/// under way. A delivery brings the exit with status zero. A missing room
/// brings the exit with status one at once, whatever the number of the
/// unit, after the line that says so. A soft failure is logged; before the
/// last unit of the budget it brings the rest and the count of the next
/// unit, at the last unit the give-up line and the exit with status zero.
pub proof fn law_unit_end_decides(
    trial: u8,
    outcome: DeliveryOutcome,
    notice: Option<Notice>,
)
    ensures
        ({
            let run = Run::Attempting { trial };
            let (next, notices, command) = after_unit_step(run, end(outcome, notice));
            match outcome {
                DeliveryOutcome::Delivered => {
                    &&& next.run == Run::Stopped(Verdict::Delivered)
                    &&& notices == noted(notice)
                    &&& command == Command::Exit { status: 0 }
                },
                DeliveryOutcome::RoomNotFound => {
                    &&& next.run == Run::Stopped(Verdict::RoomNotFound)
                    &&& notices == noted(notice).push(Notice::RoomMissing)
                    &&& command == Command::Exit { status: 1 }
                },
                DeliveryOutcome::SoftFailure(cause) => if trial < MAX_TRIALS {
                    &&& next == Progress {
                        run: Run::Attempting { trial: (trial + 1) as u8 },
                        phase: Phase::Resting,
                    }
                    &&& notices == noted(notice).push(Notice::TrialFailed { trial, cause })
                    &&& command == Command::Do(Action::Wait { seconds: TRIAL_REST_SECS })
                } else {
                    &&& next.run == Run::Stopped(Verdict::GivenUp)
                    &&& notices == noted(notice).push(Notice::TrialFailed { trial, cause }).push(
                        Notice::GivingUp,
                    )
                    &&& command == Command::Exit { status: 0 }
                },
            }
        }),
{
    let run = Run::Attempting { trial };
    let (next, notices, command) = after_unit_step(run, end(outcome, notice));
    match outcome {
        DeliveryOutcome::Delivered => {
            assert(notices =~= noted(notice));
        },
        DeliveryOutcome::RoomNotFound => {
            assert(notices =~= noted(notice).push(Notice::RoomMissing));
        },
        DeliveryOutcome::SoftFailure(cause) => {
            if trial < MAX_TRIALS {
                assert(notices =~= noted(notice).push(Notice::TrialFailed { trial, cause }));
            } else {
                assert(notices =~= noted(notice).push(Notice::TrialFailed { trial, cause }).push(
                    Notice::GivingUp,
                ));
            }
        },
    }
}

/// The reply to a rest starts the next unit under the same count: the
/// client is built anew for the configured server and nothing is logged.
pub proof fn law_rest_leads_to_next_unit(trial: u8, reply: Reply, inputs: Inputs)
    ensures
        after_reply(
            Progress { run: Run::Attempting { trial }, phase: Phase::Resting },
            reply,
            inputs,
        ) == (
            Progress {
                run: Run::Attempting { trial },
                phase: Phase::Working(Unit::Authenticating(Auth::Connecting)),
            },
            Seq::<Notice>::empty(),
            Command::Do(Action::Connect { server: inputs.config.server_name }),
        ),
{
}

/// Every reply brings a run that has not stopped nearer to its end.
pub proof fn law_reply_brings_end_nearer(progress: Progress, reply: Reply, inputs: Inputs)
    requires
        progress.run is Attempting,
    ensures
        replies_left(after_reply(progress, reply, inputs).0) < replies_left(progress),
{
    let unit = match progress.phase {
        Phase::Resting => opening(inputs),
        Phase::Working(unit) => crate::attempt::after_reply(unit, reply, inputs),
    };
    match progress.phase {
        Phase::Resting => {},
        Phase::Working(state) => {
            law_unit_ends(state, reply, inputs);
        },
    }
    let left = units_left(progress.run);
    let span = 1 + longest_unit();
    match unit.op {
        UnitOp::Do(_) => {},
        UnitOp::End(outcome) => {
            let decision = after_unit(progress.run, outcome);
            if decision.op is RetryAfter {
                assert(units_left(decision.next) == left - 1);
                assert(left * span == (left - 1) * span + span) by (nonlinear_arith);
            }
        },
    }
}

/// Whatever the caller replies, a run stops: from its start it takes no
/// more replies than the budget of units, their longest course and the
/// rests between them allow.
pub proof fn law_run_ends(progress: Progress, replies: Seq<Reply>, inputs: Inputs)
    requires
        replies.len() >= replies_left(progress),
    ensures
        advance(progress, replies, inputs).run is Stopped,
        replies_left(initial()) == 239,
    decreases replies.len(),
{
    assert(units_left(initial().run) == 19);
    assert(longest_unit() == 11);
    if progress.run is Stopped {
        if replies.len() > 0 {
            law_exit_goes_with_verdict(progress, replies[0], inputs);
            law_run_ends(progress, replies.drop_first(), inputs);
        }
    } else {
        law_reply_brings_end_nearer(progress, replies[0], inputs);
        law_run_ends(
            after_reply(progress, replies[0], inputs).0,
            replies.drop_first(),
            inputs,
        );
    }
}

/// A run together with what it was given.
pub struct Notifier {
    inputs: Inputs,
    progress: Progress,
}

impl Notifier {
    /// What the run was given.
    pub closed spec fn inputs(&self) -> Inputs {
        self.inputs
    }

    /// How far the run has come.
    pub closed spec fn progress(&self) -> Progress {
        self.progress
    }

    /// Starts a run on `inputs`, or refuses them. A run is started exactly
    /// on a configuration whose account identifier and server address
    /// parse; its first command is to build the client, with nothing to
    /// log.
    pub fn start(inputs: Inputs) -> (started: Result<(Notifier, Step), ConfigError>)
        ensures
            match started {
                Ok((notifier, step)) => {
                    &&& inputs.config.acceptable()
                    &&& notifier.inputs() == inputs
                    &&& notifier.progress() == initial()
                    &&& step.notices@ == Seq::<Notice>::empty()
                    &&& step.command == Command::Do(
                        Action::Connect { server: inputs.config.server_name },
                    )
                },
                Err(error) => Err::<(), ConfigError>(error) == finding(
                    user_id_parses(inputs.config.user_id@),
                    server_name_parses(inputs.config.server_name@),
                ),
            },
    {
        match inputs.config.check() {
            Err(error) => Err(error),
            Ok(()) => {
                let first = Unit::start(&inputs);
                let run = Run::start();
                let step = Notifier::follow(run, first);
                Ok((Notifier { inputs, progress: step.0 }, step.1))
            },
        }
    }

    /// Takes the reply to the action last commanded and decides what
    /// follows.
    pub fn step(&mut self, reply: &Reply) -> (step: Step)
        ensures
            final(self).inputs() == old(self).inputs(),
            final(self).progress() == after_reply(
                old(self).progress(),
                *reply,
                old(self).inputs(),
            ).0,
            step.notices@ == after_reply(old(self).progress(), *reply, old(self).inputs()).1,
            step.command == after_reply(old(self).progress(), *reply, old(self).inputs()).2,
    {
        match self.progress.run {
            Run::Stopped(verdict) => Step {
                notices: Vec::new(),
                command: Command::Exit { status: verdict.exit_status() },
            },
            Run::Attempting { trial: _ } => {
                let unit = match self.progress.phase {
                    Phase::Resting => Unit::start(&self.inputs),
                    Phase::Working(unit) => unit.on_reply(reply, &self.inputs),
                };
                let step = Notifier::follow(self.progress.run, unit);
                self.progress = step.0;
                step.1
            },
        }
    }

    /// Joins a unit's answer with the orchestrator's decision on it.
    fn follow(run: Run, unit: UnitStep) -> (step: (Progress, Step))
        ensures
            step.0 == after_unit_step(run, unit).0,
            step.1.notices@ == after_unit_step(run, unit).1,
            step.1.command == after_unit_step(run, unit).2,
    {
        let mut notices: Vec<Notice> = Vec::new();
        Notifier::note(&mut notices, unit.notice);
        match unit.op {
            UnitOp::Do(action) => (
                Progress { run, phase: Phase::Working(unit.next) },
                Step { notices, command: Command::Do(action) },
            ),
            UnitOp::End(outcome) => {
                let decision = run.on_unit(outcome);
                Notifier::note(&mut notices, decision.notice);
                match decision.op {
                    RunOp::RetryAfter { seconds } => (
                        Progress { run: decision.next, phase: Phase::Resting },
                        Step { notices, command: Command::Do(Action::Wait { seconds }) },
                    ),
                    RunOp::Stop(verdict) => {
                        Notifier::note(&mut notices, verdict.last_words());
                        (
                            Progress { run: decision.next, phase: Phase::Working(unit.next) },
                            Step {
                                notices,
                                command: Command::Exit { status: verdict.exit_status() },
                            },
                        )
                    },
                }
            },
        }
    }

    fn note(notices: &mut Vec<Notice>, notice: Option<Notice>)
        ensures
            final(notices)@ == old(notices)@ + noted(notice),
    {
        match notice {
            Some(line) => {
                notices.push(line);
            },
            None => {},
        }
    }

    /// The number of the unit under way or awaited, counted from one, or
    /// `None` once the run has stopped.
    pub fn trial(&self) -> (trial: Option<u8>)
        ensures
            trial == match self.progress().run {
                Run::Attempting { trial } => Some(trial),
                Run::Stopped(_) => None,
            },
    {
        match self.progress.run {
            Run::Attempting { trial } => Some(trial),
            Run::Stopped(_) => None,
        }
    }

    /// The verdict on which the run has stopped, or `None` while it goes
    /// on.
    pub fn verdict(&self) -> (verdict: Option<Verdict>)
        ensures
            verdict == match self.progress().run {
                Run::Attempting { .. } => None,
                Run::Stopped(verdict) => Some(verdict),
            },
    {
        match self.progress.run {
            Run::Attempting { trial: _ } => None,
            Run::Stopped(verdict) => Some(verdict),
        }
    }
}

} // verus!
