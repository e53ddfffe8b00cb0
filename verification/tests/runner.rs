use code_executor::{
    cpp, python, CommandArgs, Duration, ErrorKind, ExitStatus, Metrics, RaceWinner, RunAction,
    RunEvent, RunState, Runner, get_default_rusage,
};

fn runner() -> Runner<'static> {
    Runner::new(cpp().runner_args, "/tmp/project", Duration::from_secs(2), i64::MAX, 512)
}

#[test]
fn runner_new_keeps_its_arguments() {
    let args = CommandArgs { binary: "java", args: &["Main"] };
    let runner = Runner::new(args, "/srv/p", Duration::from_millis(1_500), 1 << 30, 16);
    assert_eq!(runner.args, args);
    assert_eq!(runner.project_path, "/srv/p");
    assert_eq!(runner.time_limit, Duration::from_millis(1_500));
    assert_eq!(runner.memory_limit, 1 << 30);
    assert_eq!(runner.process_count_limit, 16);
    assert_eq!(runner.begin(), RunState::Created);
}

#[test]
fn should_output_correct() {
    let runner = Runner::new(python().runner_args, "/tmp/p", Duration::from_secs(2), i64::MAX, 512);
    let events = [
        RunEvent::Start,
        RunEvent::GroupReady,
        RunEvent::Forked { child_pid: 4242 },
        RunEvent::Exited { status: 0 },
        RunEvent::Drained,
    ];
    let (state, actions) = runner.replay(&events);
    assert_eq!(state, RunState::Finished { winner: RaceWinner::Completion, status: 0 });
    assert_eq!(
        actions,
        vec![
            RunAction::AcquireGroup { memory_limit: i64::MAX, process_count_limit: 512 },
            RunAction::Spawn,
            RunAction::Race { time_limit: Duration::from_secs(2) },
            RunAction::Drain,
            RunAction::Collect { winner: RaceWinner::Completion, status: 0 },
        ]
    );
    let metrics = Metrics::collect(
        RaceWinner::Completion,
        0,
        get_default_rusage(),
        Duration::from_millis(30),
        b"7\n".to_vec(),
        Vec::new(),
    );
    assert_eq!(metrics.exit_status, ExitStatus::Success);
    assert_eq!(metrics.stdout, b"7".to_vec());
}

#[test]
fn should_timeout() {
    let runner = runner();
    let events = [
        RunEvent::Start,
        RunEvent::GroupReady,
        RunEvent::Forked { child_pid: 77 },
        RunEvent::DeadlineElapsed,
        RunEvent::KillAttempted { delivered: true },
        RunEvent::Reaped { status: 9 },
    ];
    let (state, actions) = runner.replay(&events);
    assert_eq!(state, RunState::Finished { winner: RaceWinner::Deadline, status: 9 });
    assert_eq!(
        actions,
        vec![
            RunAction::AcquireGroup { memory_limit: i64::MAX, process_count_limit: 512 },
            RunAction::Spawn,
            RunAction::Race { time_limit: Duration::from_secs(2) },
            RunAction::Kill { child_pid: 77 },
            RunAction::Reap { child_pid: 77 },
            RunAction::Collect { winner: RaceWinner::Deadline, status: 9 },
        ]
    );
    let metrics = Metrics::collect(
        RaceWinner::Deadline,
        9,
        get_default_rusage(),
        Duration::from_secs(2),
        Vec::new(),
        Vec::new(),
    );
    assert_eq!(metrics.exit_status, ExitStatus::Timeout);
}

#[test]
fn failed_kill_is_still_followed_by_a_reap() {
    let runner = runner();
    let killing = RunState::Killing { child_pid: 5 };
    assert_eq!(
        runner.step(killing, RunEvent::KillAttempted { delivered: false }),
        (RunState::Reaping { child_pid: 5 }, RunAction::Reap { child_pid: 5 })
    );
    assert_eq!(
        runner.step(RunState::Reaping { child_pid: 5 }, RunEvent::Reaped { status: 14 }),
        (
            RunState::Finished { winner: RaceWinner::Deadline, status: 14 },
            RunAction::Collect { winner: RaceWinner::Deadline, status: 14 }
        )
    );
}

#[test]
fn late_deadline_after_completion_is_ignored() {
    let runner = runner();
    let draining = RunState::Draining { child_pid: 8, status: 0 };
    assert_eq!(runner.step(draining, RunEvent::DeadlineElapsed), (draining, RunAction::Ignore));
    let (state, actions) = runner.replay(&[
        RunEvent::Start,
        RunEvent::GroupReady,
        RunEvent::Forked { child_pid: 8 },
        RunEvent::Exited { status: 256 },
        RunEvent::DeadlineElapsed,
        RunEvent::KillAttempted { delivered: true },
        RunEvent::Reaped { status: 9 },
        RunEvent::Drained,
    ]);
    assert_eq!(state, RunState::Finished { winner: RaceWinner::Completion, status: 256 });
    assert!(!actions.iter().any(|a| matches!(a, RunAction::Kill { .. } | RunAction::Reap { .. })));
    assert_eq!(actions.iter().filter(|a| matches!(a, RunAction::Drain)).count(), 1);
}

#[test]
fn late_exit_after_deadline_is_ignored() {
    let runner = runner();
    let (state, actions) = runner.replay(&[
        RunEvent::Start,
        RunEvent::GroupReady,
        RunEvent::Forked { child_pid: 8 },
        RunEvent::DeadlineElapsed,
        RunEvent::Exited { status: 0 },
        RunEvent::Drained,
        RunEvent::KillAttempted { delivered: true },
        RunEvent::Reaped { status: 9 },
        RunEvent::Reaped { status: 9 },
    ]);
    assert_eq!(state, RunState::Finished { winner: RaceWinner::Deadline, status: 9 });
    assert!(!actions.iter().any(|a| matches!(a, RunAction::Drain)));
    assert_eq!(actions.iter().filter(|a| matches!(a, RunAction::Reap { .. })).count(), 1);
    assert_eq!(actions.iter().filter(|a| matches!(a, RunAction::Kill { .. })).count(), 1);
    assert_eq!(actions.last(), Some(&RunAction::Ignore));
}

#[test]
fn group_failure_aborts_before_any_spawn() {
    let runner = runner();
    let (state, actions) = runner.replay(&[RunEvent::Start, RunEvent::GroupFailed]);
    assert_eq!(state, RunState::Failed { kind: ErrorKind::Cgroup });
    assert_eq!(actions[1], RunAction::Abort { kind: ErrorKind::Cgroup });
    assert!(!actions.contains(&RunAction::Spawn));
    assert!(state.terminal());
}

#[test]
fn fork_failure_aborts_with_an_io_error() {
    let runner = runner();
    let (state, actions) =
        runner.replay(&[RunEvent::Start, RunEvent::GroupReady, RunEvent::ForkFailed]);
    assert_eq!(state, RunState::Failed { kind: ErrorKind::IO });
    assert_eq!(actions[2], RunAction::Abort { kind: ErrorKind::IO });
}

#[test]
fn io_failures_abort_the_execution() {
    let runner = runner();
    let io = (RunState::Failed { kind: ErrorKind::IO }, RunAction::Abort { kind: ErrorKind::IO });
    assert_eq!(runner.step(RunState::Racing { child_pid: 1 }, RunEvent::CompletionFailed), io);
    assert_eq!(runner.step(RunState::Reaping { child_pid: 1 }, RunEvent::ReapFailed), io);
    assert_eq!(
        runner.step(RunState::Draining { child_pid: 1, status: 0 }, RunEvent::DrainFailed),
        io
    );
}

#[test]
fn terminal_states_ignore_every_event() {
    let runner = runner();
    let events = [
        RunEvent::Start,
        RunEvent::GroupReady,
        RunEvent::GroupFailed,
        RunEvent::Forked { child_pid: 1 },
        RunEvent::ForkFailed,
        RunEvent::Exited { status: 0 },
        RunEvent::CompletionFailed,
        RunEvent::DeadlineElapsed,
        RunEvent::KillAttempted { delivered: true },
        RunEvent::Reaped { status: 0 },
        RunEvent::ReapFailed,
        RunEvent::Drained,
        RunEvent::DrainFailed,
    ];
    for state in [
        RunState::Finished { winner: RaceWinner::Completion, status: 0 },
        RunState::Finished { winner: RaceWinner::Deadline, status: 9 },
        RunState::Failed { kind: ErrorKind::IO },
    ] {
        assert!(state.terminal());
        for event in events {
            assert_eq!(runner.step(state, event), (state, RunAction::Ignore));
        }
    }
    assert!(!RunState::Created.terminal());
    assert!(!RunState::Racing { child_pid: 3 }.terminal());
}

#[test]
fn events_out_of_turn_change_nothing() {
    let runner = runner();
    assert_eq!(
        runner.step(RunState::Created, RunEvent::Forked { child_pid: 1 }),
        (RunState::Created, RunAction::Ignore)
    );
    assert_eq!(
        runner.step(RunState::AwaitingFork, RunEvent::Start),
        (RunState::AwaitingFork, RunAction::Ignore)
    );
    assert_eq!(
        runner.step(RunState::Racing { child_pid: 1 }, RunEvent::Drained),
        (RunState::Racing { child_pid: 1 }, RunAction::Ignore)
    );
    let (state, actions) = runner.replay(&[]);
    assert_eq!(state, RunState::Created);
    assert!(actions.is_empty());
}
