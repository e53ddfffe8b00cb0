use vstd::prelude::*;

use crate::command::CommandArgs;
use crate::duration::Duration;
use crate::error::ErrorKind;
use crate::metrics::{spec_classify, ExitStatus, RaceWinner};

verus! {

/// Where one execution stands.
#[derive(Debug, Clone, Copy, PartialEq, Eq, Structural)]
pub enum RunState {
    /// Nothing has been asked for yet.
    Created,
    /// The resource group has been asked for.
    AwaitingGroup,
    /// The fork has been asked for.
    AwaitingFork,
    /// The child runs, and the race against the time limit is on.
    Racing { child_pid: i32 },
    /// The limit passed first, and the child is being killed.
    Killing { child_pid: i32 },
    /// The kill has been attempted, and the child is being reaped.
    Reaping { child_pid: i32 },
    /// The child ended first and has been reaped, and its output is being
    /// drained to the end.
    Draining { child_pid: i32, status: i32 },
    /// The execution is over and its report can be made.
    Finished { winner: RaceWinner, status: i32 },
    /// The execution was given up.
    Failed { kind: ErrorKind },
}

/// What the host reports back to the runner.
#[derive(Debug, Clone, Copy, PartialEq, Eq, Structural)]
pub enum RunEvent {
    /// The caller asks for the execution.
    Start,
    /// The resource group exists.
    GroupReady,
    /// The resource group could not be created.
    GroupFailed,
    /// The fork succeeded; the child has this process identifier.
    Forked { child_pid: i32 },
    /// The fork failed; there is no child.
    ForkFailed,
    /// The input was written and the child has ended and been reaped with
    /// this wait status, all before the limit.
    Exited { status: i32 },
    /// Writing the input or waiting for the child failed before the limit.
    CompletionFailed,
    /// The limit passed before the child ended.
    DeadlineElapsed,
    /// The kill was attempted; `delivered` says whether the system took it.
    KillAttempted { delivered: bool },
    /// The blocking wait after the kill returned this wait status.
    Reaped { status: i32 },
    /// The blocking wait after the kill failed.
    ReapFailed,
    /// Both output streams were read to their end.
    Drained,
    /// Reading an output stream failed.
    DrainFailed,
}

/// What the runner asks the host to do next.
#[derive(Debug, Clone, Copy, PartialEq, Eq, Structural)]
pub enum RunAction {
    /// Look up or create the resource group for these two limits.
    AcquireGroup { memory_limit: i64, process_count_limit: u32 },
    /// Note the time, fork the child and start draining its output.
    Spawn,
    /// Write the input and wait for the child, but for no longer than the
    /// limit, counted from the time noted before the fork: the kernel alarm
    /// of the child is armed later and for no less, so it cannot come first.
    Race { time_limit: Duration },
    /// Kill the child unconditionally.
    Kill { child_pid: i32 },
    /// Wait for the child until it is gone.
    Reap { child_pid: i32 },
    /// Read both output streams to their end.
    Drain,
    /// Make the report for this winner of the race and this wait status.
    Collect { winner: RaceWinner, status: i32 },
    /// Give the execution up with an error of this kind.
    Abort { kind: ErrorKind },
    /// Nothing: the event does not belong to the state, and is dropped.
    Ignore,
}

/// Runs one program in one project directory under a time limit and the two
/// limits of a resource group.
#[derive(Debug, Clone, Copy)]
pub struct Runner<'a> {
    pub args: CommandArgs<'a>,
    pub project_path: &'a str,
    pub time_limit: Duration,
    pub memory_limit: i64,
    pub process_count_limit: u32,
}

impl RunState {
    /// Whether the execution is over, with a report or with an error.
    pub open spec fn spec_terminal(self) -> bool {
        self is Finished || self is Failed
    }

    /// Whether the child has been forked and not yet been reaped.
    pub open spec fn spec_child_alive(self) -> bool {
        self is Racing || self is Killing || self is Reaping
    }

    /// How far the execution has come: a number that no step lowers.
    pub open spec fn spec_rank(self) -> nat {
        match self {
            RunState::Created => 0,
            RunState::AwaitingGroup => 1,
            RunState::AwaitingFork => 2,
            RunState::Racing { .. } => 3,
            RunState::Killing { .. } => 4,
            RunState::Reaping { .. } => 5,
            RunState::Draining { .. } => 6,
            RunState::Finished { .. } => 7,
            RunState::Failed { .. } => 7,
        }
    }

    /// Whether the execution is over.
    pub fn terminal(&self) -> (over: bool)
        ensures
            over == self.spec_terminal(),
    {
        match self {
            RunState::Finished { .. } => true,
            RunState::Failed { .. } => true,
            _ => false,
        }
    }
}

impl<'a> Runner<'a> {
    /// The state and the action that follow from `state` on `event`. An event
    /// that the state does not wait for changes nothing.
    pub open spec fn spec_step(&self, state: RunState, event: RunEvent) -> (RunState, RunAction) {
        match (state, event) {
            (RunState::Created, RunEvent::Start) => (
                RunState::AwaitingGroup,
                RunAction::AcquireGroup {
                    memory_limit: self.memory_limit,
                    process_count_limit: self.process_count_limit,
                },
            ),
            (RunState::AwaitingGroup, RunEvent::GroupReady) => (
                RunState::AwaitingFork,
                RunAction::Spawn,
            ),
            (RunState::AwaitingGroup, RunEvent::GroupFailed) => (
                RunState::Failed { kind: ErrorKind::Cgroup },
                RunAction::Abort { kind: ErrorKind::Cgroup },
            ),
            (RunState::AwaitingFork, RunEvent::Forked { child_pid }) => (
                RunState::Racing { child_pid },
                RunAction::Race { time_limit: self.time_limit },
            ),
            (RunState::AwaitingFork, RunEvent::ForkFailed) => (
                RunState::Failed { kind: ErrorKind::IO },
                RunAction::Abort { kind: ErrorKind::IO },
            ),
            (RunState::Racing { child_pid }, RunEvent::Exited { status }) => (
                RunState::Draining { child_pid, status },
                RunAction::Drain,
            ),
            (RunState::Racing { child_pid }, RunEvent::CompletionFailed) => (
                RunState::Failed { kind: ErrorKind::IO },
                RunAction::Abort { kind: ErrorKind::IO },
            ),
            (RunState::Racing { child_pid }, RunEvent::DeadlineElapsed) => (
                RunState::Killing { child_pid },
                RunAction::Kill { child_pid },
            ),
            (RunState::Killing { child_pid }, RunEvent::KillAttempted { delivered }) => (
                RunState::Reaping { child_pid },
                RunAction::Reap { child_pid },
            ),
            (RunState::Reaping { child_pid }, RunEvent::Reaped { status }) => (
                RunState::Finished { winner: RaceWinner::Deadline, status },
                RunAction::Collect { winner: RaceWinner::Deadline, status },
            ),
            (RunState::Reaping { child_pid }, RunEvent::ReapFailed) => (
                RunState::Failed { kind: ErrorKind::IO },
                RunAction::Abort { kind: ErrorKind::IO },
            ),
            (RunState::Draining { child_pid, status }, RunEvent::Drained) => (
                RunState::Finished { winner: RaceWinner::Completion, status },
                RunAction::Collect { winner: RaceWinner::Completion, status },
            ),
            (RunState::Draining { child_pid, status }, RunEvent::DrainFailed) => (
                RunState::Failed { kind: ErrorKind::IO },
                RunAction::Abort { kind: ErrorKind::IO },
            ),
            _ => (state, RunAction::Ignore),
        }
    }

    /// The state that a sequence of events leads to from `state`.
    pub open spec fn spec_run(&self, state: RunState, events: Seq<RunEvent>) -> RunState
        decreases events.len(),
    {
        if events.len() == 0 {
            state
        } else {
            self.spec_step(self.spec_run(state, events.drop_last()), events.last()).0
        }
    }

    /// The actions that a sequence of events draws from `state`, one for each
    /// event.
    pub open spec fn spec_actions(&self, state: RunState, events: Seq<RunEvent>) -> Seq<RunAction>
        decreases events.len(),
    {
        if events.len() == 0 {
            Seq::empty()
        } else {
            self.spec_actions(state, events.drop_last()).push(
                self.spec_step(self.spec_run(state, events.drop_last()), events.last()).1,
            )
        }
    }

    /// A runner for the program `args` in the directory `project_path`.
    pub fn new(
        args: CommandArgs<'a>,
        project_path: &'a str,
        time_limit: Duration,
        memory_limit: i64,
        process_count_limit: u32,
    ) -> (runner: Self)
        ensures
            runner.args == args,
            runner.project_path == project_path,
            runner.time_limit == time_limit,
            runner.memory_limit == memory_limit,
            runner.process_count_limit == process_count_limit,
    {
        Runner { args, project_path, time_limit, memory_limit, process_count_limit }
    }

    /// The state in which every execution begins.
    pub fn begin(&self) -> (state: RunState)
        ensures
            state == RunState::Created,
    {
        RunState::Created
    }

    /// Takes one event of the host and decides what happens next.
    pub fn step(&self, state: RunState, event: RunEvent) -> (next: (RunState, RunAction))
        ensures
            next == self.spec_step(state, event),
    {
        match state {
            RunState::Created => match event {
                RunEvent::Start => (
                    RunState::AwaitingGroup,
                    RunAction::AcquireGroup {
                        memory_limit: self.memory_limit,
                        process_count_limit: self.process_count_limit,
                    },
                ),
                _ => (state, RunAction::Ignore),
            },
            RunState::AwaitingGroup => match event {
                RunEvent::GroupReady => (RunState::AwaitingFork, RunAction::Spawn),
                RunEvent::GroupFailed => (
                    RunState::Failed { kind: ErrorKind::Cgroup },
                    RunAction::Abort { kind: ErrorKind::Cgroup },
                ),
                _ => (state, RunAction::Ignore),
            },
            RunState::AwaitingFork => match event {
                RunEvent::Forked { child_pid } => (
                    RunState::Racing { child_pid },
                    RunAction::Race { time_limit: self.time_limit },
                ),
                RunEvent::ForkFailed => (
                    RunState::Failed { kind: ErrorKind::IO },
                    RunAction::Abort { kind: ErrorKind::IO },
                ),
                _ => (state, RunAction::Ignore),
            },
            RunState::Racing { child_pid } => match event {
                RunEvent::Exited { status } => (
                    RunState::Draining { child_pid, status },
                    RunAction::Drain,
                ),
                RunEvent::CompletionFailed => (
                    RunState::Failed { kind: ErrorKind::IO },
                    RunAction::Abort { kind: ErrorKind::IO },
                ),
                RunEvent::DeadlineElapsed => (
                    RunState::Killing { child_pid },
                    RunAction::Kill { child_pid },
                ),
                _ => (state, RunAction::Ignore),
            },
            RunState::Killing { child_pid } => match event {
                RunEvent::KillAttempted { .. } => (
                    RunState::Reaping { child_pid },
                    RunAction::Reap { child_pid },
                ),
                _ => (state, RunAction::Ignore),
            },
            RunState::Reaping { .. } => match event {
                RunEvent::Reaped { status } => (
                    RunState::Finished { winner: RaceWinner::Deadline, status },
                    RunAction::Collect { winner: RaceWinner::Deadline, status },
                ),
                RunEvent::ReapFailed => (
                    RunState::Failed { kind: ErrorKind::IO },
                    RunAction::Abort { kind: ErrorKind::IO },
                ),
                _ => (state, RunAction::Ignore),
            },
            RunState::Draining { status, .. } => match event {
                RunEvent::Drained => (
                    RunState::Finished { winner: RaceWinner::Completion, status },
                    RunAction::Collect { winner: RaceWinner::Completion, status },
                ),
                RunEvent::DrainFailed => (
                    RunState::Failed { kind: ErrorKind::IO },
                    RunAction::Abort { kind: ErrorKind::IO },
                ),
                _ => (state, RunAction::Ignore),
            },
            RunState::Finished { .. } => (state, RunAction::Ignore),
            RunState::Failed { .. } => (state, RunAction::Ignore),
        }
    }

    /// Replays a recorded sequence of events from the beginning and hands
    /// back the state reached and the action drawn by each event.
    pub fn replay(&self, events: &[RunEvent]) -> (end: (RunState, Vec<RunAction>))
        ensures
            end.0 == self.spec_run(RunState::Created, events@),
            end.1@ == self.spec_actions(RunState::Created, events@),
    {
        let mut state = RunState::Created;
        let mut actions: Vec<RunAction> = Vec::new();
        let mut at: usize = 0;
        while at < events.len()
            invariant
                at <= events@.len(),
                state == self.spec_run(RunState::Created, events@.take(at as int)),
                actions@ == self.spec_actions(RunState::Created, events@.take(at as int)),
            decreases events@.len() - at,
        {
            let (next, action) = self.step(state, events[at]);
            proof {
                let before = events@.take(at as int);
                let after = events@.take(at + 1);
                assert(after.drop_last() =~= before);
                assert(after.last() == events@[at as int]);
            }
            state = next;
            actions.push(action);
            at = at + 1;
        }
        assert(events@.take(at as int) =~= events@);
        (state, actions)
    }
}

/// How many of the actions ask for the child to be killed.
pub open spec fn spec_kills(actions: Seq<RunAction>) -> nat
    decreases actions.len(),
{
    if actions.len() == 0 {
        0
    } else {
        spec_kills(actions.drop_last()) + (if actions.last() is Kill { 1nat } else { 0nat })
    }
}

/// How many of the actions ask for the child to be reaped.
pub open spec fn spec_reaps(actions: Seq<RunAction>) -> nat
    decreases actions.len(),
{
    if actions.len() == 0 {
        0
    } else {
        spec_reaps(actions.drop_last()) + (if actions.last() is Reap { 1nat } else { 0nat })
    }
}

/// How many of the actions ask for the output to be drained, which is asked
/// only once the child has ended by itself and has been reaped.
pub open spec fn spec_drains(actions: Seq<RunAction>) -> nat
    decreases actions.len(),
{
    if actions.len() == 0 {
        0
    } else {
        spec_drains(actions.drop_last()) + (if actions.last() is Drain { 1nat } else { 0nat })
    }
}

/// How many of the actions ask for the child to be forked.
pub open spec fn spec_spawns(actions: Seq<RunAction>) -> nat
    decreases actions.len(),
{
    if actions.len() == 0 {
        0
    } else {
        spec_spawns(actions.drop_last()) + (if actions.last() is Spawn { 1nat } else { 0nat })
    }
}

/// How many of the actions end the execution, with a report or an error.
pub open spec fn spec_verdicts(actions: Seq<RunAction>) -> nat
    decreases actions.len(),
{
    if actions.len() == 0 {
        0
    } else {
        spec_verdicts(actions.drop_last()) + (if actions.last() is Collect
            || actions.last() is Abort {
            1nat
        } else {
            0nat
        })
    }
}

/// What holds of the actions issued so far in each state.
pub open spec fn spec_consistent(state: RunState, actions: Seq<RunAction>) -> bool {
    let kills = spec_kills(actions);
    let reaps = spec_reaps(actions);
    let drains = spec_drains(actions);
    let verdicts = spec_verdicts(actions);
    let spawns = spec_spawns(actions);
    match state {
        RunState::Created | RunState::AwaitingGroup => spawns == 0 && kills == 0 && reaps == 0
            && drains == 0 && verdicts == 0,
        RunState::AwaitingFork | RunState::Racing { .. } => spawns == 1 && kills == 0 && reaps == 0
            && drains == 0 && verdicts == 0,
        RunState::Killing { .. } => spawns == 1 && kills == 1 && reaps == 0 && drains == 0
            && verdicts == 0,
        RunState::Reaping { .. } => spawns == 1 && kills == 1 && reaps == 1 && drains == 0
            && verdicts == 0,
        RunState::Draining { .. } => spawns == 1 && kills == 0 && reaps == 0 && drains == 1
            && verdicts == 0,
        RunState::Finished { winner: RaceWinner::Completion, .. } => spawns == 1 && kills == 0
            && reaps == 0 && drains == 1 && verdicts == 1,
        RunState::Finished { winner: RaceWinner::Deadline, .. } => spawns == 1 && kills == 1
            && reaps == 1 && drains == 0 && verdicts == 1,
        RunState::Failed { kind } => spawns <= 1 && kills + drains <= spawns && reaps <= kills
            && verdicts == 1 && (kind == ErrorKind::Cgroup ==> spawns == 0) && (kind
            != ErrorKind::Cgroup ==> spawns == 1),
    }
}

/// No step takes an execution back: the rank of the state never falls, and a
/// state that is over stays as it is and asks for nothing more.
pub proof fn lemma_step_advances(runner: Runner, state: RunState, event: RunEvent)
    ensures
        runner.spec_step(state, event).0.spec_rank() >= state.spec_rank(),
        state.spec_terminal() ==> runner.spec_step(state, event) == (state, RunAction::Ignore),
        runner.spec_step(state, event).1 is Ignore ==> runner.spec_step(state, event).0 == state,
{
}

/// Whatever the host reports, in whatever order, the actions issued from the
/// beginning fit the state reached.
pub proof fn lemma_run_consistent(runner: Runner, events: Seq<RunEvent>)
    ensures
        spec_consistent(
            runner.spec_run(RunState::Created, events),
            runner.spec_actions(RunState::Created, events),
        ),
    decreases events.len(),
{
    if events.len() > 0 {
        let front = events.drop_last();
        lemma_run_consistent(runner, front);
        let actions = runner.spec_actions(RunState::Created, events);
        assert(actions.drop_last() =~= runner.spec_actions(RunState::Created, front));
    }
}

/// An execution takes one path only. Over any sequence of events from the
/// beginning: the child is either drained after ending by itself or killed,
/// never both; it is reaped after a kill at most once, and only after a
/// kill; and at most one report or error comes out.
pub proof fn lemma_single_path(runner: Runner, events: Seq<RunEvent>)
    ensures
        ({
            let state = runner.spec_run(RunState::Created, events);
            let actions = runner.spec_actions(RunState::Created, events);
            &&& spec_kills(actions) + spec_drains(actions) <= 1
            &&& spec_reaps(actions) <= spec_kills(actions)
            &&& spec_verdicts(actions) <= 1
            &&& spec_verdicts(actions) == 1 <==> state.spec_terminal()
            &&& state.spec_child_alive() ==> spec_reaps(actions) == 0 || state is Reaping
        }),
{
    lemma_run_consistent(runner, events);
}

/// An execution whose resource group cannot be had is given up before any
/// child is forked, and no execution forks more than one child or touches a
/// child that it has not forked.
pub proof fn lemma_no_child_without_group(runner: Runner, events: Seq<RunEvent>)
    ensures
        ({
            let state = runner.spec_run(RunState::Created, events);
            let actions = runner.spec_actions(RunState::Created, events);
            &&& spec_spawns(actions) <= 1
            &&& spec_kills(actions) + spec_drains(actions) <= spec_spawns(actions)
            &&& state == (RunState::Failed { kind: ErrorKind::Cgroup }) ==> spec_spawns(actions)
                == 0
        }),
{
    lemma_run_consistent(runner, events);
}

/// An execution that ends with a report for a passed limit has killed the
/// child once and reaped it once, and one that ends with a report for a
/// program that ended by itself has never asked for a kill or a second wait.
pub proof fn lemma_report_fits_path(runner: Runner, events: Seq<RunEvent>)
    ensures
        ({
            let state = runner.spec_run(RunState::Created, events);
            let actions = runner.spec_actions(RunState::Created, events);
            &&& state matches RunState::Finished { winner: RaceWinner::Deadline, .. }
                ==> spec_kills(actions) == 1 && spec_reaps(actions) == 1
                && spec_drains(actions) == 0
            &&& state matches RunState::Finished { winner: RaceWinner::Completion, .. }
                ==> spec_kills(actions) == 0 && spec_reaps(actions) == 0
                && spec_drains(actions) == 1
        }),
{
    lemma_run_consistent(runner, events);
}

/// Once the limit has passed while the child runs, the child is killed, then
/// reaped whether or not the kill was delivered, and the execution is a
/// timeout whatever status the child left and whatever it had written.
pub proof fn lemma_deadline_ends_in_timeout(
    runner: Runner,
    child_pid: i32,
    delivered: bool,
    status: i32,
    stderr_len: nat,
)
    ensures
        runner.spec_step(RunState::Racing { child_pid }, RunEvent::DeadlineElapsed) == (
            RunState::Killing { child_pid },
            RunAction::Kill { child_pid },
        ),
        runner.spec_step(RunState::Killing { child_pid }, RunEvent::KillAttempted { delivered })
            == (RunState::Reaping { child_pid }, RunAction::Reap { child_pid }),
        runner.spec_step(RunState::Reaping { child_pid }, RunEvent::Reaped { status }) == (
            RunState::Finished { winner: RaceWinner::Deadline, status },
            RunAction::Collect { winner: RaceWinner::Deadline, status },
        ),
        spec_classify(RaceWinner::Deadline, status, stderr_len) == ExitStatus::Timeout,
{
}

/// Once the child has ended by itself before the limit, its output is
/// drained and the report is made for its status; a limit that passes
/// afterwards changes nothing.
pub proof fn lemma_completion_ends_in_report(runner: Runner, child_pid: i32, status: i32)
    ensures
        runner.spec_step(RunState::Racing { child_pid }, RunEvent::Exited { status }) == (
            RunState::Draining { child_pid, status },
            RunAction::Drain,
        ),
        runner.spec_step(RunState::Draining { child_pid, status }, RunEvent::DeadlineElapsed) == (
            RunState::Draining { child_pid, status },
            RunAction::Ignore,
        ),
        runner.spec_step(RunState::Draining { child_pid, status }, RunEvent::Drained) == (
            RunState::Finished { winner: RaceWinner::Completion, status },
            RunAction::Collect { winner: RaceWinner::Completion, status },
        ),
{
}

} // verus!
