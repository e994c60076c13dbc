use mnot::config::{Config, ConfigError, Inputs};
use mnot::notifier::{Command, Notifier, Step};
use mnot::outcome::{Cause, Notice, Verdict};
use mnot::protocol::{Action, Reply};

fn inputs() -> Inputs {
    Inputs {
        config: Config {
            server_name: "example.org".to_string(),
            user_id: "@bot:example.org".to_string(),
            password: "hunter2".to_string(),
            room_name: "Alerts".to_string(),
        },
        session_file: "session.json".to_string(),
        message: "disk is full".to_string(),
    }
}

fn joined() -> Reply {
    Reply::Rooms(vec![
        Some("General".to_string()),
        Some("Alerts".to_string()),
        Some("Random".to_string()),
    ])
}

/// What a whole run did.
struct Record {
    status: i32,
    verdict: Option<Verdict>,
    actions: Vec<Action>,
    log: Vec<Notice>,
    replies: usize,
}

impl Record {
    fn count(&self, wanted: impl Fn(&Action) -> bool) -> usize {
        self.actions.iter().filter(|action| wanted(action)).count()
    }

    fn units(&self) -> usize {
        self.count(|action| matches!(action, Action::Connect { .. }))
    }

    fn sends(&self) -> usize {
        self.count(|action| matches!(action, Action::Send { .. }))
    }

    fn waits_of(&self, length: u64) -> usize {
        self.count(|action| *action == Action::Wait { seconds: length })
    }
}

/// Runs a notifier to its exit. `answer` gets the number of the unit under
/// way, counted from one, and the action to reply to.
fn run(mut answer: impl FnMut(usize, &Action) -> Reply) -> Record {
    let (mut notifier, mut step) = Notifier::start(inputs()).expect("the inputs are in order");
    let mut record =
        Record { status: -1, verdict: None, actions: Vec::new(), log: Vec::new(), replies: 0 };
    let mut unit = 0;
    loop {
        let Step { notices, command } = step;
        record.log.extend(notices);
        match command {
            Command::Exit { status } => {
                record.status = status;
                record.verdict = notifier.verdict();
                assert_eq!(notifier.trial(), None);
                return record;
            }
            Command::Do(action) => {
                assert_eq!(notifier.verdict(), None);
                if matches!(action, Action::Connect { .. }) {
                    unit += 1;
                    assert_eq!(notifier.trial(), Some(unit as u8));
                }
                let reply = answer(unit, &action);
                record.actions.push(action);
                record.replies += 1;
                assert!(record.replies <= 239, "the run takes more replies than it may");
                step = notifier.step(&reply);
            }
        }
    }
}

/// Replies of a server on which everything works.
fn willing(action: &Action) -> Reply {
    match action {
        Action::Sync => joined(),
        _ => Reply::Done,
    }
}

#[test]
fn a_run_on_a_malformed_account_is_refused() {
    let mut bad = inputs();
    bad.config.user_id = "bot".to_string();
    assert!(matches!(Notifier::start(bad), Err(ConfigError::AccountId)));
}

#[test]
fn a_run_on_a_malformed_server_is_refused() {
    let mut bad = inputs();
    bad.config.server_name = "exa mple.org".to_string();
    assert!(matches!(Notifier::start(bad), Err(ConfigError::ServerAddress)));
}

#[test]
fn a_run_starts_by_building_the_client() {
    let (notifier, step) = Notifier::start(inputs()).expect("the inputs are in order");
    assert_eq!(
        step,
        Step {
            notices: vec![],
            command: Command::Do(Action::Connect { server: "example.org".to_string() }),
        }
    );
    assert_eq!(notifier.trial(), Some(1));
    assert_eq!(notifier.verdict(), None);
}

#[test]
fn a_run_that_meets_no_failure_delivers_in_one_unit() {
    let record = run(|_, action| willing(action));
    assert_eq!(record.status, 0);
    assert_eq!(record.verdict, Some(Verdict::Delivered));
    assert_eq!(
        record.actions,
        vec![
            Action::Connect { server: "example.org".to_string() },
            Action::LoadSession { path: "session.json".to_string() },
            Action::RestoreSession,
            Action::SaveSession { path: "session.json".to_string() },
            Action::Sync,
            Action::Send { room: 1, text: "disk is full".to_string() },
        ]
    );
    assert!(record.log.is_empty());
}

#[test]
fn a_run_whose_first_three_units_fail_delivers_in_the_fourth() {
    let record = run(|unit, action| match action {
        Action::Connect { .. } if unit < 4 => Reply::Failed,
        _ => willing(action),
    });
    assert_eq!(record.status, 0);
    assert_eq!(record.verdict, Some(Verdict::Delivered));
    assert_eq!(record.units(), 4);
    assert_eq!(record.waits_of(60), 3);
    assert_eq!(record.sends(), 1);
    assert_eq!(
        record.log,
        vec![
            Notice::TrialFailed { trial: 1, cause: Cause::Connect },
            Notice::TrialFailed { trial: 2, cause: Cause::Connect },
            Notice::TrialFailed { trial: 3, cause: Cause::Connect },
        ]
    );
}

#[test]
fn a_rest_is_followed_by_a_new_client() {
    let record = run(|unit, action| match action {
        Action::Sync if unit == 1 => Reply::Failed,
        _ => willing(action),
    });
    let rest = record
        .actions
        .iter()
        .position(|action| *action == Action::Wait { seconds: 60 })
        .expect("the run rests once");
    assert_eq!(record.actions[rest - 1], Action::Sync);
    assert_eq!(record.actions[rest + 1], Action::Connect { server: "example.org".to_string() });
    assert_eq!(record.waits_of(60), 1);
    assert_eq!(record.log, vec![Notice::TrialFailed { trial: 1, cause: Cause::Sync }]);
}

#[test]
fn a_run_whose_sends_always_fail_is_given_up() {
    let record = run(|_, action| match action {
        Action::Send { .. } => Reply::Failed,
        _ => willing(action),
    });
    assert_eq!(record.status, 0);
    assert_eq!(record.verdict, Some(Verdict::GivenUp));
    assert_eq!(record.units(), 20);
    assert_eq!(record.sends(), 60);
    assert_eq!(record.waits_of(1), 40);
    assert_eq!(record.waits_of(60), 19);
    assert_eq!(
        record.actions.last(),
        Some(&Action::Send { room: 1, text: "disk is full".to_string() })
    );
    assert_eq!(record.log.len(), 60 + 20 + 1);
    assert_eq!(
        record.log[..4],
        [
            Notice::SendFailed { attempt: 1 },
            Notice::SendFailed { attempt: 2 },
            Notice::SendFailed { attempt: 3 },
            Notice::TrialFailed { trial: 1, cause: Cause::Send },
        ]
    );
    assert_eq!(
        record.log[78..],
        [
            Notice::SendFailed { attempt: 3 },
            Notice::TrialFailed { trial: 20, cause: Cause::Send },
            Notice::GivingUp,
        ]
    );
}

#[test]
fn a_run_whose_logins_always_fail_is_given_up() {
    let record = run(|_, action| match action {
        Action::LoadSession { .. } | Action::Login { .. } => Reply::Failed,
        _ => willing(action),
    });
    assert_eq!(record.status, 0);
    assert_eq!(record.verdict, Some(Verdict::GivenUp));
    assert_eq!(record.units(), 20);
    assert_eq!(record.waits_of(60), 19);
    assert_eq!(record.sends(), 0);
    assert_eq!(record.log.last(), Some(&Notice::GivingUp));
}

#[test]
fn a_run_without_the_room_exits_at_once_with_status_one() {
    let record = run(|_, action| match action {
        Action::Sync => Reply::Rooms(vec![Some("General".to_string()), None]),
        _ => willing(action),
    });
    assert_eq!(record.status, 1);
    assert_eq!(record.verdict, Some(Verdict::RoomNotFound));
    assert_eq!(record.units(), 1);
    assert_eq!(record.waits_of(60), 0);
    assert_eq!(record.sends(), 0);
    assert_eq!(record.actions.last(), Some(&Action::Sync));
    assert_eq!(record.log, vec![Notice::RoomMissing]);
}

#[test]
fn a_room_that_goes_missing_in_a_later_unit_ends_the_run() {
    let record = run(|unit, action| match action {
        Action::Send { .. } => Reply::Failed,
        Action::Sync if unit == 3 => Reply::Rooms(Vec::new()),
        _ => willing(action),
    });
    assert_eq!(record.status, 1);
    assert_eq!(record.verdict, Some(Verdict::RoomNotFound));
    assert_eq!(record.units(), 3);
    assert_eq!(record.waits_of(60), 2);
    assert_eq!(record.sends(), 6);
}

#[test]
fn the_longest_run_takes_239_replies() {
    let record = run(|_, action| match action {
        Action::Connect { .. } | Action::SaveSession { .. } => Reply::Done,
        Action::LoadSession { .. } => Reply::Done,
        Action::RestoreSession => Reply::Failed,
        Action::Login { .. } => Reply::Done,
        Action::Send { .. } => Reply::Failed,
        _ => willing(action),
    });
    assert_eq!(record.verdict, Some(Verdict::GivenUp));
    assert_eq!(record.replies, 239);
}

#[test]
fn a_run_that_has_stopped_commands_the_same_exit_again() {
    let (mut notifier, _) = Notifier::start(inputs()).expect("the inputs are in order");
    for reply in [Reply::Done, Reply::Done, Reply::Done, Reply::Done, Reply::Rooms(Vec::new())] {
        notifier.step(&reply);
    }
    assert_eq!(notifier.verdict(), Some(Verdict::RoomNotFound));
    for reply in [Reply::Done, Reply::Failed, joined()] {
        assert_eq!(
            notifier.step(&reply),
            Step { notices: vec![], command: Command::Exit { status: 1 } }
        );
        assert_eq!(notifier.verdict(), Some(Verdict::RoomNotFound));
    }
}
