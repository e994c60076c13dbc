use mnot::orchestrator::{Run, RunOp, RunStep, MAX_TRIALS, TRIAL_REST_SECS};
use mnot::outcome::{Cause, DeliveryOutcome, Notice, Verdict};

/// Runs the orchestrator over a unit whose outcome is a function of its
/// number. Returns the exit status, the verdict, the number of units made,
/// the rests taken and the log.
fn orchestrate(
    mut unit: impl FnMut(u32) -> DeliveryOutcome,
) -> (i32, Verdict, u32, Vec<u64>, Vec<Notice>) {
    let mut state = Run::start();
    let mut units = 0;
    let mut rests = Vec::new();
    let mut log = Vec::new();
    loop {
        units += 1;
        assert!(units <= 1000, "the run does not end");
        let step = state.on_unit(unit(units));
        log.extend(step.notice);
        state = step.next;
        match step.op {
            RunOp::RetryAfter { seconds } => rests.push(seconds),
            RunOp::Stop(verdict) => {
                log.extend(verdict.last_words());
                return (verdict.exit_status(), verdict, units, rests, log);
            }
        }
    }
}

#[test]
fn the_budget_is_twenty_units_a_minute_apart() {
    assert_eq!(MAX_TRIALS, 20);
    assert_eq!(TRIAL_REST_SECS, 60);
}

#[test]
fn success_on_the_fourth_unit() {
    let (status, verdict, units, rests, log) = orchestrate(|number| {
        if number < 4 {
            DeliveryOutcome::SoftFailure(Cause::Send)
        } else {
            DeliveryOutcome::Delivered
        }
    });
    assert_eq!(status, 0);
    assert_eq!(verdict, Verdict::Delivered);
    assert_eq!(units, 4);
    assert_eq!(rests, vec![60, 60, 60]);
    assert_eq!(
        log,
        vec![
            Notice::TrialFailed { trial: 1, cause: Cause::Send },
            Notice::TrialFailed { trial: 2, cause: Cause::Send },
            Notice::TrialFailed { trial: 3, cause: Cause::Send },
        ]
    );
}

#[test]
fn success_on_the_first_unit() {
    let (status, verdict, units, rests, log) = orchestrate(|_| DeliveryOutcome::Delivered);
    assert_eq!((status, verdict, units), (0, Verdict::Delivered, 1));
    assert!(rests.is_empty());
    assert!(log.is_empty());
}

#[test]
fn success_on_the_last_unit() {
    let (status, verdict, units, rests, _) = orchestrate(|number| {
        if number < 20 {
            DeliveryOutcome::SoftFailure(Cause::Sync)
        } else {
            DeliveryOutcome::Delivered
        }
    });
    assert_eq!((status, verdict, units), (0, Verdict::Delivered, 20));
    assert_eq!(rests, vec![60; 19]);
}

#[test]
fn a_unit_that_always_fails_is_given_up_after_twenty() {
    let (status, verdict, units, rests, log) =
        orchestrate(|_| DeliveryOutcome::SoftFailure(Cause::Login));
    assert_eq!(status, 0);
    assert_eq!(verdict, Verdict::GivenUp);
    assert_eq!(units, 20);
    assert_eq!(rests, vec![60; 19]);
    assert_eq!(log.len(), 21);
    for (at, notice) in log.iter().take(20).enumerate() {
        assert_eq!(*notice, Notice::TrialFailed { trial: at as u8 + 1, cause: Cause::Login });
    }
    assert_eq!(log[20], Notice::GivingUp);
}

#[test]
fn a_missing_room_on_the_first_unit_ends_the_run() {
    let (status, verdict, units, rests, log) = orchestrate(|_| DeliveryOutcome::RoomNotFound);
    assert_eq!(status, 1);
    assert_eq!(verdict, Verdict::RoomNotFound);
    assert_eq!(units, 1);
    assert!(rests.is_empty());
    assert_eq!(log, vec![Notice::RoomMissing]);
}

#[test]
fn a_missing_room_on_a_later_unit_ends_the_run() {
    let (status, verdict, units, rests, _) = orchestrate(|number| {
        if number < 3 {
            DeliveryOutcome::SoftFailure(Cause::Connect)
        } else {
            DeliveryOutcome::RoomNotFound
        }
    });
    assert_eq!((status, verdict, units), (1, Verdict::RoomNotFound, 3));
    assert_eq!(rests, vec![60, 60]);
}

#[test]
fn every_cause_of_a_soft_failure_is_retried() {
    for cause in [Cause::Connect, Cause::Login, Cause::Sync, Cause::Send] {
        assert_eq!(
            Run::start().on_unit(DeliveryOutcome::SoftFailure(cause)),
            RunStep {
                next: Run::Attempting { trial: 2 },
                notice: Some(Notice::TrialFailed { trial: 1, cause }),
                op: RunOp::RetryAfter { seconds: 60 },
            }
        );
    }
}

#[test]
fn the_last_unit_is_not_followed_by_a_rest() {
    assert_eq!(
        Run::Attempting { trial: 19 }.on_unit(DeliveryOutcome::SoftFailure(Cause::Send)).op,
        RunOp::RetryAfter { seconds: 60 }
    );
    assert_eq!(
        Run::Attempting { trial: 20 }.on_unit(DeliveryOutcome::SoftFailure(Cause::Send)),
        RunStep {
            next: Run::Stopped(Verdict::GivenUp),
            notice: Some(Notice::TrialFailed { trial: 20, cause: Cause::Send }),
            op: RunOp::Stop(Verdict::GivenUp),
        }
    );
}

#[test]
fn a_stopped_run_stays_stopped() {
    for verdict in [Verdict::Delivered, Verdict::GivenUp, Verdict::RoomNotFound] {
        for outcome in [
            DeliveryOutcome::Delivered,
            DeliveryOutcome::RoomNotFound,
            DeliveryOutcome::SoftFailure(Cause::Sync),
        ] {
            assert_eq!(
                Run::Stopped(verdict).on_unit(outcome),
                RunStep { next: Run::Stopped(verdict), notice: None, op: RunOp::Stop(verdict) }
            );
        }
    }
}

#[test]
fn exit_statuses_and_last_words() {
    assert_eq!(Verdict::Delivered.exit_status(), 0);
    assert_eq!(Verdict::GivenUp.exit_status(), 0);
    assert_eq!(Verdict::RoomNotFound.exit_status(), 1);
    assert_eq!(Verdict::Delivered.last_words(), None);
    assert_eq!(Verdict::GivenUp.last_words(), Some(Notice::GivingUp));
    assert_eq!(Verdict::RoomNotFound.last_words(), Some(Notice::RoomMissing));
}
