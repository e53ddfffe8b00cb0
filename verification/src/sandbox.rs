use std::marker::PhantomData;
use vstd::prelude::*;
use vstd::string::*;

use crate::command::CommandArgs;
use crate::duration::Duration;
use crate::error::{Error, ErrorKind};
use crate::metrics::{Metrics, RaceWinner, RawRusage};

verus! {

/// The kinds of resource that a process limit can bound.
#[allow(non_camel_case_types)]
#[derive(Debug, Clone, Copy, PartialEq, Eq, Structural)]
pub enum Resource {
    RLIMIT_AS,
    RLIMIT_CORE,
    RLIMIT_CPU,
    RLIMIT_DATA,
    RLIMIT_FSIZE,
    RLIMIT_NOFILE,
    RLIMIT_STACK,
    RLIMIT_LOCKS,
    RLIMIT_MEMLOCK,
    RLIMIT_MSGQUEUE,
    RLIMIT_NICE,
    RLIMIT_NPROC,
    RLIMIT_RSS,
    RLIMIT_RTPRIO,
    RLIMIT_RTTIME,
    RLIMIT_SIGPENDING,
}

/// One process limit to install in the child before it execs.
#[derive(Debug, Clone, Copy, PartialEq, Eq, Structural)]
pub struct RlimitConfig {
    pub resource: Resource,
    pub soft_limit: u64,
    pub hard_limit: u64,
}

impl RlimitConfig {
    /// Whether the soft limit stays within the hard limit.
    pub open spec fn spec_valid(&self) -> bool {
        self.soft_limit <= self.hard_limit
    }

    /// Whether the soft limit stays within the hard limit.
    pub fn valid(&self) -> (ok: bool)
        ensures
            ok == self.spec_valid(),
    {
        self.soft_limit <= self.hard_limit
    }
}

/// The restrictions put on the child: the system calls that kill it, by
/// name, and its process limits. Every system call that is not named stays
/// allowed.
#[derive(Debug, Clone, Copy)]
pub struct SandboxConfig<'a> {
    pub syscall_denylist: &'a [&'a str],
    pub rlimit_configs: &'a [RlimitConfig],
}

impl<'a> SandboxConfig<'a> {
    /// Whether every process limit is valid.
    pub open spec fn spec_valid(&self) -> bool {
        forall|i: int| 0 <= i < self.rlimit_configs@.len() ==> (#[trigger] self.rlimit_configs@[i]).spec_valid()
    }

    /// The position of the first process limit whose soft limit exceeds its
    /// hard limit, if there is one.
    pub fn first_invalid_rlimit(&self) -> (found: Option<usize>)
        ensures
            found is None <==> self.spec_valid(),
            found matches Some(at) ==> {
                &&& at < self.rlimit_configs@.len()
                &&& !self.rlimit_configs@[at as int].spec_valid()
                &&& forall|i: int| 0 <= i < at ==> (#[trigger] self.rlimit_configs@[i]).spec_valid()
            },
    {
        let mut at: usize = 0;
        while at < self.rlimit_configs.len()
            invariant
                at <= self.rlimit_configs@.len(),
                forall|i: int| 0 <= i < at ==> (#[trigger] self.rlimit_configs@[i]).spec_valid(),
            decreases self.rlimit_configs@.len() - at,
        {
            if !self.rlimit_configs[at].valid() {
                return Some(at);
            }
            at = at + 1;
        }
        None
    }
}

/// One thing that the child does between the fork and the exec. None of
/// them allocates or takes a lock.
#[derive(Debug, Clone, Copy, PartialEq, Eq, Structural)]
pub enum ChildStep {
    /// Change the working directory to the project directory.
    EnterProjectDir,
    /// Put the input file in the place of standard input.
    RedirectStdin,
    /// Put the output file in the place of standard output.
    RedirectStdout,
    /// Put the error file in the place of standard error.
    RedirectStderr,
    /// Add the child itself, not its parent, to the resource group.
    JoinGroup,
    /// Install one process limit.
    SetRlimit { limit: RlimitConfig },
    /// Begin a system call filter that allows everything.
    InitFilter,
    /// Add to the filter that the system call named at this position of the
    /// list kills the process.
    DenySyscall { index: usize },
    /// Put the filter into force.
    LoadFilter,
    /// Arm the kernel alarm for no less than the time limit. It ends the
    /// child even if the parent stalls.
    ArmAlarm { seconds: u32 },
    /// Replace the process image with the program.
    Exec,
}

/// The exit code of a child that could not enter the project directory.
pub const EXIT_NO_PROJECT_DIR: i32 = 100;

/// The exit code of a child that could not be set up.
pub const EXIT_SETUP_FAILED: i32 = 1;

/// The exit code of a child whose program could not be executed.
pub const EXIT_EXEC_FAILED: i32 = 127;

impl ChildStep {
    /// The exit code with which the child leaves when the step fails.
    pub open spec fn spec_failure_code(self) -> i32 {
        match self {
            ChildStep::EnterProjectDir => EXIT_NO_PROJECT_DIR,
            ChildStep::Exec => EXIT_EXEC_FAILED,
            _ => EXIT_SETUP_FAILED,
        }
    }

    /// The exit code with which the child leaves when the step fails: never
    /// zero, always a code that a process can exit with, and for the project
    /// directory and for the exec a code that no other step has.
    pub fn failure_code(&self) -> (code: i32)
        ensures
            code == self.spec_failure_code(),
            1 <= code <= 255,
    {
        match self {
            ChildStep::EnterProjectDir => EXIT_NO_PROJECT_DIR,
            ChildStep::Exec => EXIT_EXEC_FAILED,
            _ => EXIT_SETUP_FAILED,
        }
    }
}

/// The failure of entering the project directory, and that of the exec, can
/// be told from the failure of every other step by the exit code alone.
pub proof fn lemma_failure_codes_distinct(a: ChildStep, b: ChildStep)
    requires
        a is EnterProjectDir || a is Exec,
        a.spec_failure_code() == b.spec_failure_code(),
    ensures
        (a is EnterProjectDir <==> b is EnterProjectDir) && (a is Exec <==> b is Exec),
{
}

/// What the child does after a step of its plan.
#[derive(Debug, Clone, Copy, PartialEq, Eq, Structural)]
pub enum ChildVerdict {
    /// Go on with the step at this position of the plan.
    Continue { next: usize },
    /// Leave at once with this exit code, without returning to any caller.
    Exit { code: i32 },
}

/// What follows the step at position `at` of a plan. The child goes on to
/// the next step only after a step that succeeded, is not the exec, and has
/// a successor. In every other case it leaves with the exit code of the
/// step: an exec that returns has failed. Where `at` is no position of the
/// plan it leaves with the code of a failed setup.
pub open spec fn spec_child_next(plan: Seq<ChildStep>, at: int, succeeded: bool) -> ChildVerdict {
    if !(0 <= at < plan.len()) {
        ChildVerdict::Exit { code: EXIT_SETUP_FAILED }
    } else if succeeded && !(plan[at] is Exec) && at + 1 < plan.len() {
        ChildVerdict::Continue { next: (at + 1) as usize }
    } else {
        ChildVerdict::Exit { code: plan[at].spec_failure_code() }
    }
}

/// Decides what the child does after the step at position `at` of its plan
/// has returned, with or without success. It allocates nothing.
pub fn child_next(plan: &[ChildStep], at: usize, succeeded: bool) -> (verdict: ChildVerdict)
    ensures
        verdict == spec_child_next(plan@, at as int, succeeded),
        verdict matches ChildVerdict::Continue { next } ==> next < plan@.len(),
        verdict matches ChildVerdict::Exit { code } ==> 1 <= code <= 255,
{
    if at >= plan.len() {
        return ChildVerdict::Exit { code: EXIT_SETUP_FAILED };
    }
    let step = plan[at];
    let is_exec = match step {
        ChildStep::Exec => true,
        _ => false,
    };
    if succeeded && !is_exec && at + 1 < plan.len() {
        ChildVerdict::Continue { next: at + 1 }
    } else {
        ChildVerdict::Exit { code: step.failure_code() }
    }
}

impl ChildStep {
    /// Whether a command that is given a working directory and piped
    /// streams performs the step itself: entering the directory, the three
    /// redirections and the exec.
    pub open spec fn spec_left_to_command(self) -> bool {
        self is EnterProjectDir || self is RedirectStdin || self is RedirectStdout
            || self is RedirectStderr || self is Exec
    }

    /// Whether a command that is given a working directory and piped
    /// streams performs the step itself.
    pub fn left_to_command(&self) -> (left: bool)
        ensures
            left == self.spec_left_to_command(),
    {
        match self {
            ChildStep::EnterProjectDir => true,
            ChildStep::RedirectStdin => true,
            ChildStep::RedirectStdout => true,
            ChildStep::RedirectStderr => true,
            ChildStep::Exec => true,
            _ => false,
        }
    }
}

/// What the hook that a command runs in the child before its exec does next.
#[derive(Debug, Clone, Copy, PartialEq, Eq, Structural)]
pub enum HookVerdict {
    /// Perform the step at this position of the plan.
    Perform { at: usize },
    /// Return to the command, which execs.
    Return,
    /// Leave at once with this exit code, without returning to any caller.
    Exit { code: i32 },
}

/// What the hook does when it has come to position `from` of the plan: it
/// passes over the steps that are left to the command and performs the first
/// that is not, and it returns to the command at the exec or at the end.
pub open spec fn spec_hook_scan(plan: Seq<ChildStep>, from: int) -> HookVerdict
    decreases plan.len() - from,
{
    if from < 0 || from >= plan.len() {
        HookVerdict::Return
    } else if plan[from] is Exec {
        HookVerdict::Return
    } else if plan[from].spec_left_to_command() {
        spec_hook_scan(plan, from + 1)
    } else {
        HookVerdict::Perform { at: from as usize }
    }
}

/// What the hook does after the step at position `at`: after a failure it
/// leaves with the exit code of the step, after a success it looks for its
/// next step behind it.
pub open spec fn spec_hook_next(plan: Seq<ChildStep>, at: int, succeeded: bool) -> HookVerdict {
    if !(0 <= at < plan.len()) {
        HookVerdict::Exit { code: EXIT_SETUP_FAILED }
    } else if !succeeded {
        HookVerdict::Exit { code: plan[at].spec_failure_code() }
    } else {
        spec_hook_scan(plan, at + 1)
    }
}

/// What a scan finds: a step of the hook's own, with nothing of its own and
/// no exec passed over on the way; or nothing of its own before the exec or
/// the end.
pub proof fn lemma_hook_scan(plan: Seq<ChildStep>, from: int)
    requires
        0 <= from,
        plan.len() <= usize::MAX,
    ensures
        !(spec_hook_scan(plan, from) is Exit),
        spec_hook_scan(plan, from) matches HookVerdict::Perform { at } ==> {
            &&& from <= at < plan.len()
            &&& !plan[at as int].spec_left_to_command()
            &&& forall|i: int|
                from <= i < at ==> (#[trigger] plan[i]).spec_left_to_command() && !(plan[i] is Exec)
        },
        spec_hook_scan(plan, from) is Return ==> {
            ||| forall|i: int| from <= i < plan.len() ==> (#[trigger] plan[i]).spec_left_to_command()
            ||| exists|stop: int|
                from <= stop < plan.len() && #[trigger] plan[stop] is Exec && forall|i: int|
                    from <= i < stop ==> (#[trigger] plan[i]).spec_left_to_command()
        },
    decreases plan.len() - from,
{
    if from < plan.len() && !(plan[from] is Exec) && plan[from].spec_left_to_command() {
        lemma_hook_scan(plan, from + 1);
        if spec_hook_scan(plan, from) is Return {
            if forall|i: int|
                from + 1 <= i < plan.len() ==> (#[trigger] plan[i]).spec_left_to_command() {
            } else {
                let stop = choose|stop: int|
                    from + 1 <= stop < plan.len() && #[trigger] plan[stop] is Exec && forall|i: int|
                        from + 1 <= i < stop ==> (#[trigger] plan[i]).spec_left_to_command();
                assert(from <= stop < plan.len() && plan[stop] is Exec);
            }
        }
    } else if from < plan.len() && plan[from] is Exec {
        assert(from <= from < plan.len() && plan[from] is Exec);
    }
}

/// Finds the step that the hook performs first.
pub fn hook_first(plan: &[ChildStep]) -> (verdict: HookVerdict)
    ensures
        verdict == spec_hook_scan(plan@, 0),
{
    hook_scan(plan, 0)
}

/// Decides what the hook does after the step at position `at` of the plan
/// has returned, with or without success. It allocates nothing.
pub fn hook_next(plan: &[ChildStep], at: usize, succeeded: bool) -> (verdict: HookVerdict)
    ensures
        verdict == spec_hook_next(plan@, at as int, succeeded),
        verdict matches HookVerdict::Perform { at: next } ==> at < next < plan@.len(),
        verdict matches HookVerdict::Exit { code } ==> 1 <= code <= 255,
{
    if at >= plan.len() {
        HookVerdict::Exit { code: EXIT_SETUP_FAILED }
    } else if !succeeded {
        HookVerdict::Exit { code: plan[at].failure_code() }
    } else {
        proof {
            lemma_hook_scan(plan@, at + 1);
        }
        hook_scan(plan, at + 1)
    }
}

fn hook_scan(plan: &[ChildStep], from: usize) -> (verdict: HookVerdict)
    requires
        from <= plan@.len(),
    ensures
        verdict == spec_hook_scan(plan@, from as int),
{
    let mut at: usize = from;
    while at < plan.len()
        invariant
            from <= at <= plan@.len(),
            spec_hook_scan(plan@, from as int) == spec_hook_scan(plan@, at as int),
        decreases plan@.len() - at,
    {
        let step = plan[at];
        let is_exec = match step {
            ChildStep::Exec => true,
            _ => false,
        };
        if is_exec {
            return HookVerdict::Return;
        }
        if !step.left_to_command() {
            return HookVerdict::Perform { at };
        }
        at = at + 1;
    }
    HookVerdict::Return
}

/// The whole seconds that cover the limit: its seconds, and one more where a
/// fraction of a second is left.
pub open spec fn spec_covering_seconds(time_limit: Duration) -> nat {
    if time_limit.spec_subsec_nanos() > 0 {
        time_limit.spec_secs() + 1
    } else {
        time_limit.spec_secs()
    }
}

/// The seconds for which the kernel alarm is armed: the limit rounded up to
/// whole seconds, so that the alarm never fires before the limit has passed,
/// and the longest alarm where the limit is longer than that. Only a limit
/// of no time at all gives zero.
pub open spec fn spec_alarm_seconds(time_limit: Duration) -> u32 {
    if spec_covering_seconds(time_limit) <= u32::MAX {
        spec_covering_seconds(time_limit) as u32
    } else {
        u32::MAX
    }
}

/// The seconds for which the kernel alarm is armed.
pub fn alarm_seconds(time_limit: &Duration) -> (seconds: u32)
    ensures
        seconds == spec_alarm_seconds(*time_limit),
{
    let secs = time_limit.as_secs();
    if secs >= 0xffff_ffff {
        u32::MAX
    } else if time_limit.subsec_nanos() > 0 {
        secs as u32 + 1
    } else {
        secs as u32
    }
}

/// The alarm of a limit that lasts any time at all is armed for at least one
/// second, and, unless the limit exceeds the longest alarm, for no less than
/// the limit and for less than one second more.
pub proof fn lemma_alarm_covers_limit(time_limit: Duration)
    requires
        time_limit.spec_subsec_nanos() < 1_000_000_000,
        time_limit.spec_nanos() > 0,
    ensures
        spec_alarm_seconds(time_limit) >= 1,
        spec_alarm_steps(time_limit) == seq![
            ChildStep::ArmAlarm { seconds: spec_alarm_seconds(time_limit) },
        ],
        spec_covering_seconds(time_limit) <= u32::MAX ==> {
            &&& spec_alarm_seconds(time_limit) * 1_000_000_000 >= time_limit.spec_nanos()
            &&& spec_alarm_seconds(time_limit) * 1_000_000_000 < time_limit.spec_nanos()
                + 1_000_000_000
        },
        spec_covering_seconds(time_limit) > u32::MAX ==> spec_alarm_seconds(time_limit)
            == u32::MAX,
{
}

/// The steps that install the process limits, in the order of the list.
pub open spec fn spec_rlimit_steps(limits: Seq<RlimitConfig>) -> Seq<ChildStep> {
    Seq::new(limits.len(), |i: int| ChildStep::SetRlimit { limit: limits[i] })
}

/// The steps that deny the first `count` system calls of the list.
pub open spec fn spec_deny_steps(count: nat) -> Seq<ChildStep> {
    Seq::new(count, |i: int| ChildStep::DenySyscall { index: i as usize })
}

/// The step that arms the alarm. It is there for every limit but that of no
/// time at all: an alarm of zero seconds would cancel, not arm.
pub open spec fn spec_alarm_steps(time_limit: Duration) -> Seq<ChildStep> {
    if spec_alarm_seconds(time_limit) == 0 {
        Seq::empty()
    } else {
        seq![ChildStep::ArmAlarm { seconds: spec_alarm_seconds(time_limit) }]
    }
}

/// Everything the child does, in order: enter the project directory,
/// redirect the three standard streams, join the resource group, install
/// each process limit, build and load the system call filter, arm the alarm,
/// exec.
pub open spec fn spec_child_plan(
    limits: Seq<RlimitConfig>,
    denied: nat,
    time_limit: Duration,
) -> Seq<ChildStep> {
    seq![
        ChildStep::EnterProjectDir,
        ChildStep::RedirectStdin,
        ChildStep::RedirectStdout,
        ChildStep::RedirectStderr,
        ChildStep::JoinGroup,
    ] + spec_rlimit_steps(limits) + seq![ChildStep::InitFilter] + spec_deny_steps(denied)
        + seq![ChildStep::LoadFilter] + spec_alarm_steps(time_limit) + seq![ChildStep::Exec]
}

/// The shape of every plan: it begins in the project directory, joins the
/// resource group before any limit, installs the limits in the order of the
/// list, denies the system calls between the start and the loading of the
/// filter, and ends with the exec, which occurs nowhere else.
pub proof fn lemma_child_plan_order(limits: Seq<RlimitConfig>, denied: nat, time_limit: Duration)
    ensures
        ({
            let plan = spec_child_plan(limits, denied, time_limit);
            let alarms = spec_alarm_steps(time_limit).len();
            &&& plan.len() == 8 + limits.len() + denied + alarms
            &&& alarms <= 1
            &&& plan[0] == ChildStep::EnterProjectDir
            &&& plan[1] == ChildStep::RedirectStdin
            &&& plan[2] == ChildStep::RedirectStdout
            &&& plan[3] == ChildStep::RedirectStderr
            &&& plan[4] == ChildStep::JoinGroup
            &&& forall|i: int|
                0 <= i < limits.len() ==> #[trigger] plan[5 + i] == (ChildStep::SetRlimit {
                    limit: limits[i],
                })
            &&& plan[5 + limits.len() as int] == ChildStep::InitFilter
            &&& forall|i: int|
                0 <= i < denied ==> #[trigger] plan[6 + limits.len() + i] == (
                ChildStep::DenySyscall { index: i as usize })
            &&& plan[6 + limits.len() as int + denied as int] == ChildStep::LoadFilter
            &&& plan.last() == ChildStep::Exec
            &&& forall|i: int| 0 <= i < plan.len() - 1 ==> !(#[trigger] plan[i] is Exec)
        }),
{
    let plan = spec_child_plan(limits, denied, time_limit);
    let alarms = spec_alarm_steps(time_limit).len();
    assert(plan.len() == 8 + limits.len() + denied + alarms);
    assert forall|i: int| 0 <= i < limits.len() implies #[trigger] plan[5 + i] == (
    ChildStep::SetRlimit { limit: limits[i] }) by {
        assert(plan[5 + i] == spec_rlimit_steps(limits)[i]);
    }
    assert forall|i: int| 0 <= i < denied implies #[trigger] plan[6 + limits.len() + i] == (
    ChildStep::DenySyscall { index: i as usize }) by {
        assert(plan[6 + limits.len() + i] == spec_deny_steps(denied)[i]);
    }
    assert forall|i: int| 0 <= i < plan.len() - 1 implies !(#[trigger] plan[i] is Exec) by {
        let after_limits = 5 + limits.len();
        let after_denied = after_limits + 1 + denied;
        if i < 5 {
        } else if i < after_limits {
            assert(plan[i] == spec_rlimit_steps(limits)[i - 5]);
        } else if i == after_limits {
        } else if i < after_denied {
            assert(plan[i] == spec_deny_steps(denied)[i - after_limits - 1]);
        } else if i == after_denied {
        } else {
            assert(plan[i] == spec_alarm_steps(time_limit)[i - after_denied - 1]);
        }
    }
}

/// Works out what a child under these restrictions and this time limit does
/// between the fork and the exec.
pub fn child_plan(config: &SandboxConfig, time_limit: &Duration) -> (plan: Vec<ChildStep>)
    ensures
        plan@ == spec_child_plan(
            config.rlimit_configs@,
            config.syscall_denylist@.len(),
            *time_limit,
        ),
{
    let limits = config.rlimit_configs;
    let denied = config.syscall_denylist;
    let mut plan: Vec<ChildStep> = Vec::new();
    plan.push(ChildStep::EnterProjectDir);
    plan.push(ChildStep::RedirectStdin);
    plan.push(ChildStep::RedirectStdout);
    plan.push(ChildStep::RedirectStderr);
    plan.push(ChildStep::JoinGroup);
    let ghost head = plan@;
    let mut at: usize = 0;
    while at < limits.len()
        invariant
            at <= limits@.len(),
            plan@ == head + spec_rlimit_steps(limits@.take(at as int)),
        decreases limits@.len() - at,
    {
        plan.push(ChildStep::SetRlimit { limit: limits[at] });
        at = at + 1;
        assert(plan@ =~= head + spec_rlimit_steps(limits@.take(at as int)));
    }
    assert(limits@.take(at as int) =~= limits@);
    plan.push(ChildStep::InitFilter);
    let ghost filter = plan@;
    let mut at: usize = 0;
    while at < denied.len()
        invariant
            at <= denied@.len(),
            plan@ == filter + spec_deny_steps(at as nat),
        decreases denied@.len() - at,
    {
        plan.push(ChildStep::DenySyscall { index: at });
        at = at + 1;
        assert(plan@ =~= filter + spec_deny_steps(at as nat));
    }
    plan.push(ChildStep::LoadFilter);
    let seconds = alarm_seconds(time_limit);
    if seconds != 0 {
        plan.push(ChildStep::ArmAlarm { seconds });
    }
    plan.push(ChildStep::Exec);
    assert(plan@ =~= spec_child_plan(
        config.rlimit_configs@,
        config.syscall_denylist@.len(),
        *time_limit,
    ));
    plan
}

/// The marker of a sandbox whose child has not been forked.
#[derive(Debug, Clone, Copy)]
pub struct Init;

/// The marker of a sandbox whose child runs.
#[derive(Debug, Clone, Copy)]
pub struct Running;

/// The handle of one execution. It is made for a child that does not exist
/// yet, is turned by `spawn` into the handle of the running child, and is
/// used up by `wait`: neither can be called twice or out of order.
#[derive(Debug)]
pub struct Sandbox<'a, State = Init> {
    config: SandboxConfig<'a>,
    project_path: &'a str,
    args: CommandArgs<'a>,
    stdin: &'a str,
    stdout: &'a str,
    stderr: &'a str,
    time_limit: Duration,
    child_pid: i32,
    start: Duration,
    plan: Vec<ChildStep>,
    state: PhantomData<State>,
}

/// What the fork came to, as each of the three that can come out of it sees
/// it.
#[derive(Debug)]
pub enum ForkOutcome {
    /// This is the parent, and the child has this process identifier.
    Parent { child_pid: i32 },
    /// This is the child.
    Child,
    /// There is no child, for this reason.
    Failed { reason: String },
}

/// What a sandbox becomes at the fork.
#[derive(Debug)]
pub enum Spawned<'a> {
    /// In the parent: the handle of the running child.
    Parent(Sandbox<'a, Running>),
    /// In the child: the plan to follow to the exec.
    Child(Vec<ChildStep>),
}

impl<'a, State> Sandbox<'a, State> {
    #[verifier::type_invariant]
    spec fn holds_its_plan(self) -> bool {
        self.plan@ == spec_child_plan(
            self.config.rlimit_configs@,
            self.config.syscall_denylist@.len(),
            self.time_limit,
        )
    }

    /// The restrictions put on the child.
    pub closed spec fn spec_config(&self) -> SandboxConfig<'a> {
        self.config
    }

    /// The directory in which the child runs.
    pub closed spec fn spec_project_path(&self) -> &'a str {
        self.project_path
    }

    /// The program that the child execs.
    pub closed spec fn spec_args(&self) -> CommandArgs<'a> {
        self.args
    }

    /// The file that the child reads as standard input.
    pub closed spec fn spec_stdin(&self) -> &'a str {
        self.stdin
    }

    /// The file that takes the standard output of the child.
    pub closed spec fn spec_stdout(&self) -> &'a str {
        self.stdout
    }

    /// The file that takes the standard error of the child.
    pub closed spec fn spec_stderr(&self) -> &'a str {
        self.stderr
    }

    /// The time that the child is given.
    pub closed spec fn spec_time_limit(&self) -> Duration {
        self.time_limit
    }

    /// The process identifier of the child, and -1 before the fork.
    pub closed spec fn spec_child_pid(&self) -> i32 {
        self.child_pid
    }

    /// The reading of the clock at the fork.
    pub closed spec fn spec_start(&self) -> Duration {
        self.start
    }

    /// Whether `other` is a handle for the same execution: the same
    /// restrictions, directory, program, files and limit.
    pub open spec fn spec_same_execution<Other>(&self, other: &Sandbox<'a, Other>) -> bool {
        &&& self.spec_config() == other.spec_config()
        &&& self.spec_project_path() == other.spec_project_path()
        &&& self.spec_args() == other.spec_args()
        &&& self.spec_stdin() == other.spec_stdin()
        &&& self.spec_stdout() == other.spec_stdout()
        &&& self.spec_stderr() == other.spec_stderr()
        &&& self.spec_time_limit() == other.spec_time_limit()
    }

    /// What the child does between the fork and the exec.
    pub open spec fn spec_plan(&self) -> Seq<ChildStep> {
        spec_child_plan(
            self.spec_config().rlimit_configs@,
            self.spec_config().syscall_denylist@.len(),
            self.spec_time_limit(),
        )
    }

    /// The restrictions put on the child.
    pub fn config(&self) -> (config: SandboxConfig<'a>)
        ensures
            config == self.spec_config(),
    {
        self.config
    }

    /// The directory in which the child runs.
    pub fn project_path(&self) -> (path: &'a str)
        ensures
            path == self.spec_project_path(),
    {
        self.project_path
    }

    /// The program that the child execs.
    pub fn args(&self) -> (args: CommandArgs<'a>)
        ensures
            args == self.spec_args(),
    {
        self.args
    }

    /// The file that the child reads as standard input.
    pub fn stdin(&self) -> (path: &'a str)
        ensures
            path == self.spec_stdin(),
    {
        self.stdin
    }

    /// The file that takes the standard output of the child.
    pub fn stdout(&self) -> (path: &'a str)
        ensures
            path == self.spec_stdout(),
    {
        self.stdout
    }

    /// The file that takes the standard error of the child.
    pub fn stderr(&self) -> (path: &'a str)
        ensures
            path == self.spec_stderr(),
    {
        self.stderr
    }

    /// The time that the child is given.
    pub fn time_limit(&self) -> (limit: Duration)
        ensures
            limit == self.spec_time_limit(),
    {
        self.time_limit
    }
}

impl<'a> Sandbox<'a, Init> {
    /// The handle of an execution whose child has not been forked.
    pub fn new(
        config: SandboxConfig<'a>,
        project_path: &'a str,
        args: CommandArgs<'a>,
        stdin: &'a str,
        stdout: &'a str,
        stderr: &'a str,
        time_limit: Duration,
    ) -> (sandbox: Self)
        ensures
            sandbox.spec_config() == config,
            sandbox.spec_project_path() == project_path,
            sandbox.spec_args() == args,
            sandbox.spec_stdin() == stdin,
            sandbox.spec_stdout() == stdout,
            sandbox.spec_stderr() == stderr,
            sandbox.spec_time_limit() == time_limit,
            sandbox.spec_child_pid() == -1,
            sandbox.spec_start().spec_nanos() == 0,
    {
        let plan = child_plan(&config, &time_limit);
        Sandbox {
            config,
            project_path,
            args,
            stdin,
            stdout,
            stderr,
            time_limit,
            child_pid: -1,
            start: Duration::zero(),
            plan,
            state: PhantomData,
        }
    }

    /// Checks before the fork what the child could only fail on without a
    /// word: a program name or argument with a zero byte in it, which no
    /// exec takes, is an I/O error; else a process limit whose soft limit
    /// exceeds its hard limit, which the kernel refuses, is a resource error.
    pub fn preflight(&self) -> (checked: Result<(), Error>)
        ensures
            checked is Ok <==> self.spec_args().spec_executable() && self.spec_config().spec_valid(),
            checked matches Err(error) ==> {
                &&& !self.spec_args().spec_executable() ==> error.spec_kind() == ErrorKind::IO
                    && error.spec_message() == "the command holds a zero byte"@
                &&& self.spec_args().spec_executable() ==> error.spec_kind() == ErrorKind::Cgroup
                    && error.spec_message() == "a soft limit exceeds its hard limit"@
            },
    {
        if !self.args.executable() {
            return Err(
                Error::IO { message: String::from_str("the command holds a zero byte") },
            );
        }
        match self.config.first_invalid_rlimit() {
            Some(_) => Err(
                Error::Cgroup {
                    message: String::from_str("a soft limit exceeds its hard limit"),
                },
            ),
            None => Ok(()),
        }
    }

    /// What the child is to do between the fork and the exec. It was worked
    /// out when the handle was made, so that the child only has to follow
    /// it.
    pub fn plan(&self) -> (plan: &[ChildStep])
        ensures
            plan@ == self.spec_plan(),
    {
        proof {
            use_type_invariant(self);
        }
        self.plan.as_slice()
    }

    /// Takes the sandbox through the fork. `forked` is what the fork came
    /// to on the side that calls, and `now` is the reading of the clock taken
    /// just before the fork. The parent gets the handle of the running
    /// child. The child gets the plan of this sandbox, and nothing else to
    /// go by. Where the fork failed there is no child, and the reason comes
    /// back as an I/O error.
    pub fn spawn(self, forked: ForkOutcome, now: Duration) -> (spawned: Result<Spawned<'a>, Error>)
        ensures
            spawned is Err <==> forked is Failed,
            (forked matches ForkOutcome::Parent { child_pid } ==> {
                &&& spawned matches Ok(Spawned::Parent(sandbox))
                &&& self.spec_same_execution(&sandbox)
                &&& sandbox.spec_child_pid() == child_pid
                &&& sandbox.spec_start() == now
            }),
            (forked is Child ==> {
                &&& spawned matches Ok(Spawned::Child(plan))
                &&& plan@ == self.spec_plan()
            }),
            (forked matches ForkOutcome::Failed { reason } ==> {
                &&& spawned matches Err(error)
                &&& error.spec_kind() == ErrorKind::IO
                &&& error.spec_message() == reason@
            }),
    {
        proof {
            use_type_invariant(&self);
        }
        match forked {
            ForkOutcome::Parent { child_pid } => Ok(
                Spawned::Parent(
                    Sandbox {
                        config: self.config,
                        project_path: self.project_path,
                        args: self.args,
                        stdin: self.stdin,
                        stdout: self.stdout,
                        stderr: self.stderr,
                        time_limit: self.time_limit,
                        child_pid,
                        start: now,
                        plan: self.plan,
                        state: PhantomData,
                    },
                ),
            ),
            ForkOutcome::Child => Ok(Spawned::Child(self.plan)),
            ForkOutcome::Failed { reason } => Err(Error::IO { message: reason }),
        }
    }
}

impl<'a> Sandbox<'a, Running> {
    /// The process identifier of the child.
    pub fn child_pid(&self) -> (pid: i32)
        ensures
            pid == self.spec_child_pid(),
    {
        self.child_pid
    }

    /// The time from the fork to `now`, and no time where the clock reads
    /// less than at the fork.
    pub open spec fn spec_elapsed(&self, now: Duration) -> nat {
        if now.spec_nanos() >= self.spec_start().spec_nanos() {
            (now.spec_nanos() - self.spec_start().spec_nanos()) as nat
        } else {
            0
        }
    }

    /// Uses the handle up and makes the report of the execution, once the
    /// child is gone. `winner` says which side of the race came first,
    /// `status` and `usage` are what the wait call handed out, `now` is the
    /// reading of the clock after it, and the two streams are what was
    /// captured.
    pub fn wait(
        self,
        winner: RaceWinner,
        status: i32,
        usage: RawRusage,
        now: Duration,
        stdout: Vec<u8>,
        stderr: Vec<u8>,
    ) -> (metrics: Metrics)
        ensures
            metrics.spec_reports(winner, status, usage, self.spec_elapsed(now), stdout@, stderr@),
    {
        let run_time = now.saturating_sub(&self.start);
        Metrics::collect(winner, status, usage, run_time, stdout, stderr)
    }
}

} // verus!
