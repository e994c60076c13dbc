//! The delivery orchestrator: the give-up policy over whole delivery units.
//!
//! A unit is one pass of authentication, room resolution and dispatch. The
//! orchestrator is told how each unit ended and answers with what follows:
//! another unit after a fixed rest, or the end of the run.

use vstd::prelude::*;
use crate::outcome::{DeliveryOutcome, Notice, Verdict};

verus! {

/// The number of units that one run may make.
pub const MAX_TRIALS: u8 = 20;

/// The rest between a failed unit and the next one, in seconds.
pub const TRIAL_REST_SECS: u64 = 60;

/// The state of a run.
#[derive(Clone, Copy, Debug, PartialEq, Eq)]
pub enum Run {
    /// The unit with this number, counted from one, is under way.
    Attempting { trial: u8 },
    /// The run is over.
    Stopped(Verdict),
}

/// What the orchestrator asks for after a unit.
#[derive(Clone, Copy, Debug, PartialEq, Eq)]
pub enum RunOp {
    /// Rest this long, then make another unit.
    RetryAfter { seconds: u64 },
    /// End the run on this verdict.
    Stop(Verdict),
}

/// The orchestrator's answer to the end of one unit.
#[derive(Clone, Copy, Debug, PartialEq, Eq)]
pub struct RunStep {
    pub next: Run,
    pub notice: Option<Notice>,
    pub op: RunOp,
}

/// The state in which the first unit is under way.
pub open spec fn fresh() -> Run {
    Run::Attempting { trial: 1 }
}

/// The answer that ends the run on `verdict`.
pub open spec fn stop(verdict: Verdict, notice: Option<Notice>) -> RunStep {
    RunStep { next: Run::Stopped(verdict), notice, op: RunOp::Stop(verdict) }
}

/// The orchestrator's answer when, in `state`, a unit ended with `outcome`.
///
/// A delivery ends the run. So does a missing room, at once and whatever the
/// number of the unit: it is taken for a misconfiguration that no further
/// unit would mend. A soft failure is logged under the unit's number; it is
/// followed by a rest and another unit unless the budget of units is used
/// up, in which case the run is given up without a rest.
pub open spec fn after_unit(state: Run, outcome: DeliveryOutcome) -> RunStep {
    match state {
        Run::Attempting { trial } => match outcome {
            DeliveryOutcome::Delivered => stop(Verdict::Delivered, None),
            DeliveryOutcome::RoomNotFound => stop(Verdict::RoomNotFound, None),
            DeliveryOutcome::SoftFailure(cause) => {
                let notice = Some(Notice::TrialFailed { trial, cause });
                if trial < MAX_TRIALS {
                    RunStep {
                        next: Run::Attempting { trial: (trial + 1) as u8 },
                        notice,
                        op: RunOp::RetryAfter { seconds: TRIAL_REST_SECS },
                    }
                } else {
                    stop(Verdict::GivenUp, notice)
                }
            },
        },
        Run::Stopped(verdict) => stop(verdict, None),
    }
}

/// What a run in `state` asks for, unit by unit, when its units end as
/// `outcomes` tell. The run makes one unit per entry of the result, so the
/// length of the result is the number of units, and the number of
/// `RetryAfter` in it is the number of rests, each of which lies between two
/// units.
pub open spec fn run(state: Run, outcomes: Seq<DeliveryOutcome>) -> Seq<RunOp>
    decreases outcomes.len(),
{
    if outcomes.len() == 0 || state is Stopped {
        Seq::empty()
    } else {
        let step = after_unit(state, outcomes[0]);
        seq![step.op] + run(step.next, outcomes.drop_first())
    }
}

impl Run {
    /// Starts a run: the caller is to make the first unit.
    pub fn start() -> (state: Run)
        ensures
            state == fresh(),
    {
        Run::Attempting { trial: 1 }
    }

    /// Takes the end of the unit under way and decides what follows.
    pub fn on_unit(self, outcome: DeliveryOutcome) -> (step: RunStep)
        ensures
            step == after_unit(self, outcome),
    {
        match self {
            Run::Attempting { trial } => match outcome {
                DeliveryOutcome::Delivered => Run::halt(Verdict::Delivered, None),
                DeliveryOutcome::RoomNotFound => Run::halt(Verdict::RoomNotFound, None),
                DeliveryOutcome::SoftFailure(cause) => {
                    let notice = Some(Notice::TrialFailed { trial, cause });
                    if trial < MAX_TRIALS {
                        RunStep {
                            next: Run::Attempting { trial: trial + 1 },
                            notice,
                            op: RunOp::RetryAfter { seconds: TRIAL_REST_SECS },
                        }
                    } else {
                        Run::halt(Verdict::GivenUp, notice)
                    }
                },
            },
            Run::Stopped(verdict) => Run::halt(verdict, None),
        }
    }

    fn halt(verdict: Verdict, notice: Option<Notice>) -> (step: RunStep)
        ensures
            step == stop(verdict, notice),
    {
        RunStep { next: Run::Stopped(verdict), notice, op: RunOp::Stop(verdict) }
    }
}

/// `count` rests of the orchestrator's fixed length.
pub open spec fn rests(count: nat) -> Seq<RunOp> {
    Seq::new(count, |i: int| RunOp::RetryAfter { seconds: TRIAL_REST_SECS })
}

/// The verdict on which a run ends when a unit ends with an outcome other
/// than a soft failure.
pub open spec fn verdict_of(outcome: DeliveryOutcome) -> Verdict {
    match outcome {
        DeliveryOutcome::RoomNotFound => Verdict::RoomNotFound,
        _ => Verdict::Delivered,
    }
}

/// While the budget lasts, each soft failure costs one rest and leaves the
/// run attempting the next unit.
proof fn lemma_soft_failures(trial: u8, failures: nat, outcomes: Seq<DeliveryOutcome>)
    requires
        1 <= trial,
        trial + failures <= MAX_TRIALS,
        failures <= outcomes.len(),
        forall|i: int| 0 <= i < failures ==> outcomes[i] is SoftFailure,
    ensures
        run(Run::Attempting { trial }, outcomes) == rests(failures) + run(
            Run::Attempting { trial: (trial + failures) as u8 },
            outcomes.skip(failures as int),
        ),
    decreases failures,
{
    if failures == 0 {
        assert(outcomes.skip(0) =~= outcomes);
        assert(rests(0) + run(Run::Attempting { trial }, outcomes) =~= run(
            Run::Attempting { trial },
            outcomes,
        ));
    } else {
        let rest = outcomes.drop_first();
        assert(outcomes[0] is SoftFailure);
        assert forall|i: int| 0 <= i < failures - 1 implies rest[i] is SoftFailure by {
            assert(rest[i] == outcomes[i + 1]);
        }
        lemma_soft_failures((trial + 1) as u8, (failures - 1) as nat, rest);
        assert(rest.skip(failures - 1) =~= outcomes.skip(failures as int));
        assert(seq![RunOp::RetryAfter { seconds: TRIAL_REST_SECS }] + rests((failures - 1) as nat)
            =~= rests(failures));
    }
}

/// A run whose first `failures` units fail softly, fewer than the budget,
/// and whose next unit ends otherwise makes `failures + 1` units with one
/// rest after each failure, and stops on the verdict of that last unit:
/// exit status zero for a delivery, one for a missing room. Later units are
/// never made.
pub proof fn law_stops_on_first_decisive_unit(failures: nat, outcomes: Seq<DeliveryOutcome>)
    requires
        failures < MAX_TRIALS,
        failures < outcomes.len(),
        forall|i: int| 0 <= i < failures ==> outcomes[i] is SoftFailure,
        !(outcomes[failures as int] is SoftFailure),
    ensures
        run(fresh(), outcomes) == rests(failures).push(
            RunOp::Stop(verdict_of(outcomes[failures as int])),
        ),
        run(fresh(), outcomes).len() == failures + 1,
        outcomes[failures as int] is Delivered ==> verdict_of(outcomes[failures as int]).status()
            == 0,
        outcomes[failures as int] is RoomNotFound ==> verdict_of(
            outcomes[failures as int],
        ).status() == 1,
{
    lemma_soft_failures(1, failures, outcomes);
    let tail = outcomes.skip(failures as int);
    assert(tail[0] == outcomes[failures as int]);
    reveal_with_fuel(run, 2);
    assert(run(fresh(), outcomes) =~= rests(failures).push(
        RunOp::Stop(verdict_of(outcomes[failures as int])),
    ));
}

/// A run whose units all fail softly makes exactly as many units as the
/// budget allows, with a rest after each but the last, and is then given
/// up: the give-up line is logged and the exit status is zero.
pub proof fn law_gives_up_after_budget(outcomes: Seq<DeliveryOutcome>)
    requires
        outcomes.len() >= MAX_TRIALS,
        forall|i: int| 0 <= i < outcomes.len() ==> outcomes[i] is SoftFailure,
    ensures
        run(fresh(), outcomes) == rests((MAX_TRIALS - 1) as nat).push(
            RunOp::Stop(Verdict::GivenUp),
        ),
        run(fresh(), outcomes).len() == MAX_TRIALS,
        Verdict::GivenUp.status() == 0,
        Verdict::GivenUp.farewell() == Some(Notice::GivingUp),
{
    let before: nat = (MAX_TRIALS - 1) as nat;
    lemma_soft_failures(1, before, outcomes);
    let tail = outcomes.skip(before as int);
    assert(tail[0] == outcomes[before as int]);
    reveal_with_fuel(run, 2);
    assert(run(fresh(), outcomes) =~= rests(before).push(RunOp::Stop(Verdict::GivenUp)));
}

/// A run whose first unit finds no room of the target name ends at once
/// with exit status one: no rest is taken and no further unit is made,
/// whatever later units would have brought.
pub proof fn law_missing_room_stops_at_once(outcomes: Seq<DeliveryOutcome>)
    requires
        outcomes.len() > 0,
        outcomes[0] is RoomNotFound,
    ensures
        run(fresh(), outcomes) == seq![RunOp::Stop(Verdict::RoomNotFound)],
        Verdict::RoomNotFound.status() == 1,
        Verdict::RoomNotFound.farewell() == Some(Notice::RoomMissing),
{
    reveal_with_fuel(run, 2);
    assert(run(fresh(), outcomes) =~= seq![RunOp::Stop(Verdict::RoomNotFound)]);
}

} // verus!
