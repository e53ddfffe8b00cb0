use vstd::prelude::*;
use vstd::utf8::*;

use crate::duration::Duration;
use crate::error::{Error, ErrorKind};
use crate::status::{exit_code, exit_signal, spec_clean_exit, spec_exit_code, spec_term_signal};
use crate::text::{spec_trim_end, trim_end, utf8_text};

verus! {

/// How an execution ended.
#[derive(Debug, Clone, Copy, PartialEq, Eq, Structural)]
pub enum ExitStatus {
    /// The program exited with code zero and wrote nothing to standard error.
    Success,
    /// The program exited with another code, was ended by a signal, or wrote
    /// to standard error.
    RuntimeError,
    /// The time limit passed before the program ended.
    Timeout,
}

/// Which side of the race between the program and its time limit came first.
#[derive(Debug, Clone, Copy, PartialEq, Eq, Structural)]
pub enum RaceWinner {
    /// The program ended before the limit.
    Completion,
    /// The limit passed while the program was still running.
    Deadline,
}

/// How an execution is classified: a timeout whatever the status says; else a
/// runtime error unless the exit is clean and standard error is empty.
pub open spec fn spec_classify(winner: RaceWinner, status: i32, stderr_len: nat) -> ExitStatus {
    if winner == RaceWinner::Deadline {
        ExitStatus::Timeout
    } else if !spec_clean_exit(status) || stderr_len > 0 {
        ExitStatus::RuntimeError
    } else {
        ExitStatus::Success
    }
}

/// The standard output that a report keeps: trimmed at its end after a
/// success, as captured after a runtime error, none after a timeout.
pub open spec fn spec_kept_stdout(exit_status: ExitStatus, stdout: Seq<u8>) -> Seq<u8> {
    match exit_status {
        ExitStatus::Success => spec_trim_end(stdout),
        ExitStatus::RuntimeError => stdout,
        ExitStatus::Timeout => Seq::empty(),
    }
}

/// The standard error that a report keeps: as captured, but none after a
/// timeout.
pub open spec fn spec_kept_stderr(exit_status: ExitStatus, stderr: Seq<u8>) -> Seq<u8> {
    match exit_status {
        ExitStatus::Timeout => Seq::empty(),
        _ => stderr,
    }
}

impl ExitStatus {
    /// The classification of a program that ended by itself, by its wait
    /// status alone: a success where the exit is clean.
    pub fn from_raw(status: i32) -> (exit_status: ExitStatus)
        ensures
            exit_status == spec_classify(RaceWinner::Completion, status, 0),
    {
        classify(RaceWinner::Completion, status, 0)
    }
}

/// Classifies an execution from the winner of the race, the wait status of
/// the program and the number of bytes it wrote to standard error.
pub fn classify(winner: RaceWinner, status: i32, stderr_len: usize) -> (exit_status: ExitStatus)
    ensures
        exit_status == spec_classify(winner, status, stderr_len as nat),
{
    match winner {
        RaceWinner::Deadline => ExitStatus::Timeout,
        RaceWinner::Completion => {
            if exit_signal(status) != 0 || exit_code(status) != 0 || stderr_len > 0 {
                ExitStatus::RuntimeError
            } else {
                ExitStatus::Success
            }
        },
    }
}

/// A program that exits with code zero and leaves standard error empty before
/// the limit is a success, and its report keeps its output trimmed.
pub proof fn lemma_clean_run_succeeds(status: i32, stdout: Seq<u8>)
    requires
        spec_clean_exit(status),
    ensures
        spec_classify(RaceWinner::Completion, status, 0) == ExitStatus::Success,
        spec_kept_stdout(spec_classify(RaceWinner::Completion, status, 0), stdout)
            == spec_trim_end(stdout),
{
}

/// A program that ends before the limit with a failing status, or with
/// anything on standard error, is a runtime error, whatever it printed.
pub proof fn lemma_failed_run_is_runtime_error(status: i32, stderr_len: nat)
    requires
        !spec_clean_exit(status) || stderr_len > 0,
    ensures
        spec_classify(RaceWinner::Completion, status, stderr_len) == ExitStatus::RuntimeError,
{
}

/// Once the limit has passed first, the execution is a timeout whatever the
/// status and the streams hold, and the report keeps no output.
pub proof fn lemma_deadline_is_timeout(status: i32, stdout: Seq<u8>, stderr: Seq<u8>)
    ensures
        spec_classify(RaceWinner::Deadline, status, stderr.len()) == ExitStatus::Timeout,
        spec_kept_stdout(ExitStatus::Timeout, stdout).len() == 0,
        spec_kept_stderr(ExitStatus::Timeout, stderr).len() == 0,
{
}

/// A kernel time value: seconds, and microseconds below one second.
#[derive(Debug, Clone, Copy, PartialEq, Eq, Structural)]
pub struct Timeval {
    tv_sec: i64,
    tv_usec: i64,
}

impl Timeval {
    #[verifier::type_invariant]
    spec fn wf(self) -> bool {
        0 <= self.tv_sec && 0 <= self.tv_usec < 1_000_000
    }

    /// The seconds of the time value.
    pub closed spec fn spec_sec(self) -> int {
        self.tv_sec as int
    }

    /// The microseconds of the time value.
    pub closed spec fn spec_usec(self) -> int {
        self.tv_usec as int
    }

    /// The time value of `sec` seconds and `usec` microseconds, where neither
    /// is negative and the microseconds stay below one second.
    pub fn new(sec: i64, usec: i64) -> (tv: Option<Timeval>)
        ensures
            tv is Some <==> (0 <= sec && 0 <= usec < 1_000_000),
            tv matches Some(t) ==> t.spec_sec() == sec && t.spec_usec() == usec,
    {
        if 0 <= sec && 0 <= usec && usec < 1_000_000 {
            Some(Timeval { tv_sec: sec, tv_usec: usec })
        } else {
            None
        }
    }

    /// The time value of no time.
    pub fn zero() -> (tv: Timeval)
        ensures
            tv.spec_sec() == 0,
            tv.spec_usec() == 0,
    {
        Timeval { tv_sec: 0, tv_usec: 0 }
    }

    /// The seconds of the time value.
    pub fn sec(&self) -> (sec: i64)
        ensures
            sec == self.spec_sec(),
            0 <= sec,
    {
        proof {
            use_type_invariant(self);
        }
        self.tv_sec
    }

    /// The microseconds of the time value.
    pub fn usec(&self) -> (usec: i64)
        ensures
            usec == self.spec_usec(),
            0 <= usec < 1_000_000,
    {
        proof {
            use_type_invariant(self);
        }
        self.tv_usec
    }

    /// The time value as a span: the same seconds, and a thousand
    /// nanoseconds for each microsecond.
    pub fn to_duration(&self) -> (span: Duration)
        ensures
            span.spec_secs() == self.spec_sec(),
            span.spec_subsec_nanos() == self.spec_usec() * 1_000,
    {
        proof {
            use_type_invariant(self);
        }
        Duration::from_timeval(self.tv_sec, self.tv_usec).unwrap()
    }
}

/// The resource accounting of a terminated child as the kernel hands it out.
#[derive(Debug, Clone, Copy, PartialEq, Eq, Structural)]
pub struct RawRusage {
    /// Time spent in user mode.
    pub ru_utime: Timeval,
    /// Time spent in kernel mode.
    pub ru_stime: Timeval,
    /// The largest resident set size.
    pub ru_maxrss: i64,
    /// Page faults that needed I/O.
    pub ru_majflt: i64,
    /// Times the child gave up the processor by itself.
    pub ru_nvcsw: i64,
    /// Times the processor was taken from the child.
    pub ru_nivcsw: i64,
}

/// The accounting of a child that has used nothing yet: the value to hand to
/// a wait call for it to fill in.
pub fn get_default_rusage() -> (usage: RawRusage)
    ensures
        usage.ru_utime.spec_sec() == 0,
        usage.ru_utime.spec_usec() == 0,
        usage.ru_stime.spec_sec() == 0,
        usage.ru_stime.spec_usec() == 0,
        usage.ru_maxrss == 0,
        usage.ru_majflt == 0,
        usage.ru_nvcsw == 0,
        usage.ru_nivcsw == 0,
{
    RawRusage {
        ru_utime: Timeval::zero(),
        ru_stime: Timeval::zero(),
        ru_maxrss: 0,
        ru_majflt: 0,
        ru_nvcsw: 0,
        ru_nivcsw: 0,
    }
}

/// What an execution consumed.
#[derive(Debug, Clone, Copy, PartialEq, Eq, Structural)]
pub struct Rusage {
    pub user_time: Duration,
    pub system_time: Duration,
    pub max_rss: i64,
    pub page_faults: i64,
    pub involuntary_context_switches: i64,
    pub voluntary_context_switches: i64,
}

impl Rusage {
    /// Whether `self` reports what the kernel accounting `raw` holds: both
    /// times as spans, and the four counters as they are.
    pub open spec fn spec_reports(self, raw: RawRusage) -> bool {
        &&& self.user_time.spec_secs() == raw.ru_utime.spec_sec()
        &&& self.user_time.spec_subsec_nanos() == raw.ru_utime.spec_usec() * 1_000
        &&& self.system_time.spec_secs() == raw.ru_stime.spec_sec()
        &&& self.system_time.spec_subsec_nanos() == raw.ru_stime.spec_usec() * 1_000
        &&& self.max_rss == raw.ru_maxrss
        &&& self.page_faults == raw.ru_majflt
        &&& self.involuntary_context_switches == raw.ru_nivcsw
        &&& self.voluntary_context_switches == raw.ru_nvcsw
    }

    /// The report of the kernel accounting `raw`.
    pub fn from(raw: RawRusage) -> (usage: Rusage)
        ensures
            usage.spec_reports(raw),
    {
        Rusage {
            user_time: raw.ru_utime.to_duration(),
            system_time: raw.ru_stime.to_duration(),
            max_rss: raw.ru_maxrss,
            page_faults: raw.ru_majflt,
            involuntary_context_switches: raw.ru_nivcsw,
            voluntary_context_switches: raw.ru_nvcsw,
        }
    }
}

impl Default for Rusage {
    /// The report of a child that has used nothing.
    fn default() -> (usage: Rusage)
        ensures
            usage.user_time.spec_nanos() == 0,
            usage.system_time.spec_nanos() == 0,
            usage.max_rss == 0,
            usage.page_faults == 0,
            usage.involuntary_context_switches == 0,
            usage.voluntary_context_switches == 0,
    {
        Rusage {
            user_time: Duration::zero(),
            system_time: Duration::zero(),
            max_rss: 0,
            page_faults: 0,
            involuntary_context_switches: 0,
            voluntary_context_switches: 0,
        }
    }
}

/// What a submission produced, as text.
#[derive(Debug)]
pub enum Output {
    /// The diagnostics of a failed build.
    CompileTimeError(String),
    /// What the program wrote to standard error.
    RunTimeError(String),
    /// What the program wrote to standard output, trimmed at its end.
    Success(String),
}

impl Default for Output {
    /// A failed build without diagnostics.
    fn default() -> (output: Output)
        ensures
            output matches Output::CompileTimeError(text) && text@.len() == 0,
    {
        Output::CompileTimeError(String::new())
    }
}

impl Output {
    /// The bytes that decide the output of a run: standard error where the
    /// program wrote any, else standard output trimmed at its end.
    pub open spec fn spec_source(stdout: Seq<u8>, stderr: Seq<u8>) -> Seq<u8> {
        if stderr.len() > 0 {
            stderr
        } else {
            spec_trim_end(stdout)
        }
    }

    /// The output of a run from the two captured streams. Anything on
    /// standard error makes it a runtime error with that text; otherwise it
    /// is a success with the trimmed standard output. The stream that decides
    /// must be valid UTF-8, else the run has no output as text.
    pub fn from_streams(stdout: &[u8], stderr: Vec<u8>) -> (output: Result<Output, Error>)
        ensures
            output is Ok <==> valid_utf8(Output::spec_source(stdout@, stderr@)),
            output matches Ok(o) ==> {
                &&& o matches Output::RunTimeError(text) ==> stderr@.len() > 0 && text@
                    == decode_utf8(stderr@)
                &&& o matches Output::Success(text) ==> stderr@.len() == 0 && text@ == decode_utf8(
                    spec_trim_end(stdout@),
                )
                &&& !(o is CompileTimeError)
            },
            output matches Err(e) ==> e.spec_kind() == ErrorKind::IO,
    {
        if stderr.len() > 0 {
            match utf8_text(stderr) {
                Ok(text) => Ok(Output::RunTimeError(text)),
                Err(message) => Err(Error::IO { message }),
            }
        } else {
            match utf8_text(trim_end(stdout)) {
                Ok(text) => Ok(Output::Success(text)),
                Err(message) => Err(Error::IO { message }),
            }
        }
    }
}

/// The report of one execution.
#[derive(Debug)]
pub struct Metrics {
    /// How the execution ended.
    pub exit_status: ExitStatus,
    /// The exit code field of the wait status.
    pub exit_code: i32,
    /// The signal field of the wait status.
    pub exit_signal: i32,
    /// The time from the fork to the end.
    pub run_time: Duration,
    /// What the child consumed.
    pub resource_usage: Rusage,
    /// The captured standard output.
    pub stdout: Vec<u8>,
    /// The captured standard error.
    pub stderr: Vec<u8>,
}

impl Metrics {
    /// Whether `self` is the report of an execution with the given winner of
    /// the race, wait status, accounting, duration in nanoseconds and
    /// captured streams.
    pub open spec fn spec_reports(
        &self,
        winner: RaceWinner,
        status: i32,
        usage: RawRusage,
        run_nanos: nat,
        stdout: Seq<u8>,
        stderr: Seq<u8>,
    ) -> bool {
        &&& self.exit_status == spec_classify(winner, status, stderr.len())
        &&& self.exit_code == spec_exit_code(status)
        &&& self.exit_signal == spec_term_signal(status)
        &&& self.run_time.spec_nanos() == run_nanos
        &&& self.resource_usage.spec_reports(usage)
        &&& self.stdout@ == spec_kept_stdout(self.exit_status, stdout)
        &&& self.stderr@ == spec_kept_stderr(self.exit_status, stderr)
    }

    /// Reduces what the operating system reported of a terminated child to
    /// the report of the execution.
    pub fn collect(
        winner: RaceWinner,
        status: i32,
        usage: RawRusage,
        run_time: Duration,
        stdout: Vec<u8>,
        stderr: Vec<u8>,
    ) -> (metrics: Metrics)
        ensures
            metrics.spec_reports(winner, status, usage, run_time.spec_nanos(), stdout@, stderr@),
            metrics.run_time == run_time,
    {
        let exit_status = classify(winner, status, stderr.len());
        let (kept_stdout, kept_stderr) = match exit_status {
            ExitStatus::Success => (trim_end(stdout.as_slice()), stderr),
            ExitStatus::RuntimeError => (stdout, stderr),
            ExitStatus::Timeout => (Vec::new(), Vec::new()),
        };
        Metrics {
            exit_status,
            exit_code: exit_code(status),
            exit_signal: exit_signal(status),
            run_time,
            resource_usage: Rusage::from(usage),
            stdout: kept_stdout,
            stderr: kept_stderr,
        }
    }
}

} // verus!
