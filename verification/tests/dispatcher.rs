use mnot::dispatcher::{Dispatch, SendOp, SendStep, MAX_SENDS, SEND_PAUSE_SECS};
use mnot::outcome::Notice;

/// Runs one dispatch over a send operation that fails `failures` times and
/// succeeds from then on. Returns the result, the number of sends, the
/// pauses taken and the numbers of the sends logged as failed.
fn dispatch(failures: u32) -> (bool, u32, Vec<u64>, Vec<u8>) {
    let mut state = Dispatch::start();
    let mut sends = 0;
    let mut pauses = Vec::new();
    let mut logged = Vec::new();
    loop {
        sends += 1;
        assert!(sends <= 100, "the dispatch does not end");
        let sent = sends > failures;
        let step = state.on_send(sent);
        if let Some(Notice::SendFailed { attempt }) = step.notice {
            logged.push(attempt);
        }
        state = step.next;
        match step.op {
            SendOp::RetryAfter { seconds } => pauses.push(seconds),
            SendOp::Finish { delivered } => return (delivered, sends, pauses, logged),
        }
    }
}

#[test]
fn the_budget_is_three_sends_a_second_apart() {
    assert_eq!(MAX_SENDS, 3);
    assert_eq!(SEND_PAUSE_SECS, 1);
}

#[test]
fn a_first_success_needs_one_send_and_no_pause() {
    assert_eq!(dispatch(0), (true, 1, vec![], vec![]));
}

#[test]
fn one_failure_costs_one_pause() {
    assert_eq!(dispatch(1), (true, 2, vec![1], vec![1]));
}

#[test]
fn two_failures_cost_two_pauses() {
    assert_eq!(dispatch(2), (true, 3, vec![1, 1], vec![1, 2]));
}

#[test]
fn three_failures_exhaust_the_budget() {
    assert_eq!(dispatch(3), (false, 3, vec![1, 1], vec![1, 2, 3]));
}

#[test]
fn a_send_that_always_fails_is_tried_three_times() {
    assert_eq!(dispatch(u32::MAX), (false, 3, vec![1, 1], vec![1, 2, 3]));
}

#[test]
fn a_dispatch_starts_with_its_first_send() {
    assert_eq!(Dispatch::start(), Dispatch::Trying { attempt: 1 });
}

#[test]
fn each_step_of_a_failing_dispatch() {
    let first = Dispatch::start().on_send(false);
    assert_eq!(
        first,
        SendStep {
            next: Dispatch::Trying { attempt: 2 },
            notice: Some(Notice::SendFailed { attempt: 1 }),
            op: SendOp::RetryAfter { seconds: 1 },
        }
    );
    let second = first.next.on_send(false);
    assert_eq!(
        second,
        SendStep {
            next: Dispatch::Trying { attempt: 3 },
            notice: Some(Notice::SendFailed { attempt: 2 }),
            op: SendOp::RetryAfter { seconds: 1 },
        }
    );
    let third = second.next.on_send(false);
    assert_eq!(
        third,
        SendStep {
            next: Dispatch::Done { delivered: false },
            notice: Some(Notice::SendFailed { attempt: 3 }),
            op: SendOp::Finish { delivered: false },
        }
    );
}

#[test]
fn a_success_is_not_logged() {
    assert_eq!(
        Dispatch::Trying { attempt: 2 }.on_send(true),
        SendStep {
            next: Dispatch::Done { delivered: true },
            notice: None,
            op: SendOp::Finish { delivered: true },
        }
    );
}

#[test]
fn a_finished_dispatch_repeats_its_result() {
    for delivered in [true, false] {
        for sent in [true, false] {
            assert_eq!(
                Dispatch::Done { delivered }.on_send(sent),
                SendStep {
                    next: Dispatch::Done { delivered },
                    notice: None,
                    op: SendOp::Finish { delivered },
                }
            );
        }
    }
}

#[test]
fn a_count_beyond_the_budget_ends_the_dispatch() {
    let step = Dispatch::Trying { attempt: u8::MAX }.on_send(false);
    assert_eq!(step.next, Dispatch::Done { delivered: false });
    assert_eq!(step.op, SendOp::Finish { delivered: false });
    assert_eq!(step.notice, Some(Notice::SendFailed { attempt: u8::MAX }));
}
