//! The handle of a launched process.
//!
//! A handle owns a process id and remembers the exit status once the process
//! has been reaped, so that the process is never waited for twice. The
//! handle decides which system call is due; the caller makes it and reports
//! what it returned.

use crate::error::Error;
use vstd::prelude::*;

verus! {

/// The signals that the launcher names.
#[derive(Clone, Copy, Debug, Hash, PartialEq, Eq, Structural)]
pub enum Signal {
    /// A child has terminated.
    ChildExit,
    /// Interrupt from the keyboard.
    Interrupt,
    /// Graceful termination.
    Terminate,
    /// The terminal has hung up.
    HangUp,
    /// Write to a pipe that nobody reads.
    BrokenPipe,
    /// Forced termination.
    Kill,
}

/// A span of time: whole seconds, and nanoseconds below a second.
#[derive(Clone, Copy, Debug, PartialEq, Eq, Structural)]
pub struct Timeout {
    pub secs: u64,
    pub nanos: u32,
}

/// What is to be done to learn the exit status of a process.
#[derive(Clone, Copy, Debug, PartialEq, Eq, Structural)]
pub enum Wait {
    /// Nothing: the process was reaped before, with this status.
    Exited(i32),
    /// Wait for the process with this id, and block until it has terminated
    /// if `block` is set.
    Ask { pid: i32, block: bool },
}

/// A launched process.
#[derive(Debug)]
pub struct Process {
    pid: i32,
    exit_status: Option<i32>,
}

/// A process handle as a mathematical value.
pub struct ProcessView {
    /// The process id, which never changes.
    pub pid: i32,
    /// The exit status, once the process has been reaped.
    pub exit_status: Option<i32>,
}

/// What the handle answers when it is asked to wait.
pub open spec fn wait_plan(p: ProcessView, block: bool) -> Wait {
    match p.exit_status {
        Some(status) => Wait::Exited(status),
        None => Wait::Ask { pid: p.pid, block },
    }
}

/// The handle after the process was waited for, when the system call
/// returned `ret` and stored `status`.
pub open spec fn after_reaped(p: ProcessView, ret: i32, status: i32) -> ProcessView {
    if p.exit_status is None && ret != -1 && ret != 0 {
        ProcessView { exit_status: Some(status), ..p }
    } else {
        p
    }
}

/// What the caller learns after the process was waited for: the status
/// that is now remembered, that the process still runs, or why the call
/// failed.
pub open spec fn reaped_result(p: ProcessView, ret: i32, status: i32, errno: i32) -> Result<
    Option<i32>,
    Error,
> {
    if p.exit_status is Some {
        Ok(p.exit_status)
    } else if ret == -1 {
        Err(Error::Os(errno))
    } else if ret == 0 {
        Ok(None)
    } else {
        Ok(Some(status))
    }
}

impl View for Process {
    type V = ProcessView;

    closed spec fn view(&self) -> ProcessView {
        ProcessView { pid: self.pid, exit_status: self.exit_status }
    }
}

impl Process {
    /// The handle of the process with this id, which has not been reaped.
    pub fn new(pid: i32) -> (p: Process)
        ensures
            p@ == (ProcessView { pid, exit_status: None }),
    {
        Process { pid, exit_status: None }
    }

    /// The process id.
    pub fn pid(&self) -> (pid: i32)
        ensures
            pid == self@.pid,
    {
        self.pid
    }

    /// The exit status, if the process has been reaped.
    pub fn exit_status(&self) -> (status: Option<i32>)
        ensures
            status == self@.exit_status,
    {
        self.exit_status
    }

    /// The signal to send, and the process to send it to: nothing if the
    /// process has been reaped.
    pub fn kill(&self, signal: Signal) -> (send: Option<(i32, Signal)>)
        ensures
            send == if self@.exit_status is Some {
                None
            } else {
                Some((self@.pid, signal))
            },
    {
        if self.exit_status.is_some() {
            None
        } else {
            Some((self.pid, signal))
        }
    }

    /// What is to be done to wait until the process has terminated: nothing
    /// if its status is known already.
    pub fn wait(&self) -> (plan: Wait)
        ensures
            plan == wait_plan(self@, true),
    {
        match self.exit_status {
            Some(status) => Wait::Exited(status),
            None => Wait::Ask { pid: self.pid, block: true },
        }
    }

    /// What is to be done to learn whether the process has terminated,
    /// without blocking: nothing if its status is known already.
    pub fn try_wait(&self) -> (plan: Wait)
        ensures
            plan == wait_plan(self@, false),
    {
        match self.exit_status {
            Some(status) => Wait::Exited(status),
            None => Wait::Ask { pid: self.pid, block: false },
        }
    }

    /// Begins a wait for the process of at most `timeout`. If the process
    /// has been reaped the wait is over before it has begun.
    pub fn try_wait_timeout(&self, timeout: Timeout) -> (wait: TimedWait)
        ensures
            wait == timed_start(self@, timeout),
    {
        let phase = match self.exit_status {
            Some(status) => TimedPhase::Finished(Ok(Some(status))),
            None => TimedPhase::Start,
        };
        TimedWait { phase, left: timeout }
    }

    /// Takes what waiting for the process returned: `ret` is the return
    /// value of the system call, `status` what it stored and `errno` the
    /// error code that was current when it returned.
    ///
    /// -1 is a failure; 0 says that the process still runs; anything else
    /// says that it has terminated, and its status is remembered from then
    /// on. A status that is remembered already is never replaced.
    pub fn reaped(&mut self, ret: i32, status: i32, errno: i32) -> (r: Result<Option<i32>, Error>)
        ensures
            final(self)@ == after_reaped(old(self)@, ret, status),
            r == reaped_result(old(self)@, ret, status, errno),
    {
        if self.exit_status.is_some() {
            Ok(self.exit_status)
        } else if ret == -1 {
            Err(Error::Os(errno))
        } else if ret == 0 {
            Ok(None)
        } else {
            self.exit_status = Some(status);
            Ok(Some(status))
        }
    }
}

/// Waiting twice gives the same status, and the second time the system is
/// not asked. Once a status is remembered the handle answers every wait
/// with it, and nothing that is reported to the handle changes it or the
/// process id.
pub proof fn lemma_wait_is_idempotent(
    p: ProcessView,
    ret: i32,
    status: i32,
    errno: i32,
    later_ret: i32,
    later_status: i32,
    later_errno: i32,
)
    requires
        reaped_result(p, ret, status, errno) matches Ok(Some(_)),
    ensures
        ({
            let first = reaped_result(p, ret, status, errno);
            let q = after_reaped(p, ret, status);
            &&& q.pid == p.pid
            &&& q.exit_status == first->Ok_0
            &&& wait_plan(q, true) == Wait::Exited(first->Ok_0->0)
            &&& wait_plan(q, false) == Wait::Exited(first->Ok_0->0)
            &&& after_reaped(q, later_ret, later_status) == q
            &&& reaped_result(q, later_ret, later_status, later_errno) == first
        }),
{
}

/// The time between two polls of a timed wait, in seconds.
pub const POLL_INTERVAL: u64 = 1;

/// What a timed wait asks its caller to do next.
#[derive(Clone, Copy, Debug, PartialEq, Eq)]
pub enum TimedStep {
    /// Learn whether the process has terminated, without blocking, as
    /// `Process::try_wait` says, and report what came of it.
    Poll,
    /// Sleep for this long.
    Sleep(Timeout),
    /// The wait is over: the process has terminated with this status, or
    /// still runs, or could not be waited for.
    Done(Result<Option<i32>, Error>),
}

/// Where a timed wait stands.
#[derive(Clone, Copy, Debug, PartialEq, Eq)]
pub enum TimedPhase {
    /// Nothing was asked yet.
    Start,
    /// The process is being polled, for the last time if `last` is set.
    Polling { last: bool },
    /// The caller sleeps; the poll that follows is the last one if `last`
    /// is set.
    Sleeping { last: bool },
    /// The wait is over.
    Finished(Result<Option<i32>, Error>),
}

/// A wait for a process to terminate that gives up after some time. The
/// process is polled at a fixed interval; when less than an interval is
/// left, the rest is slept and the process is polled a last time.
#[derive(Clone, Copy, Debug, PartialEq, Eq)]
pub struct TimedWait {
    pub phase: TimedPhase,
    /// The time that is left to sleep.
    pub left: Timeout,
}

/// The end of a timed wait.
pub open spec fn timed_finish(w: TimedWait, result: Result<Option<i32>, Error>) -> (
    TimedWait,
    TimedStep,
) {
    (TimedWait { phase: TimedPhase::Finished(result), ..w }, TimedStep::Done(result))
}

/// The wait for this process of at most `timeout`, before anything is
/// asked. A process that has been reaped is not waited for.
pub open spec fn timed_start(p: ProcessView, timeout: Timeout) -> TimedWait {
    TimedWait {
        phase: match p.exit_status {
            Some(status) => TimedPhase::Finished(Ok(Some(status))),
            None => TimedPhase::Start,
        },
        left: timeout,
    }
}

/// A timed wait after the caller has done what it was asked, and what it
/// is asked next. `outcome` is what the last poll gave; it has no meaning
/// unless a poll was the last step.
pub open spec fn timed_next(w: TimedWait, outcome: Result<Option<i32>, Error>) -> (
    TimedWait,
    TimedStep,
) {
    match w.phase {
        TimedPhase::Start => (
            TimedWait { phase: TimedPhase::Polling { last: false }, ..w },
            TimedStep::Poll,
        ),
        TimedPhase::Polling { last } => match outcome {
            Err(e) => timed_finish(w, Err(e)),
            Ok(Some(status)) => timed_finish(w, Ok(Some(status))),
            Ok(None) => if last {
                timed_finish(w, Ok(None))
            } else if w.left.secs >= POLL_INTERVAL {
                (
                    TimedWait {
                        phase: TimedPhase::Sleeping { last: false },
                        left: Timeout {
                            secs: (w.left.secs - POLL_INTERVAL) as u64,
                            nanos: w.left.nanos,
                        },
                    },
                    TimedStep::Sleep(Timeout { secs: POLL_INTERVAL, nanos: 0 }),
                )
            } else {
                (
                    TimedWait {
                        phase: TimedPhase::Sleeping { last: true },
                        left: Timeout { secs: 0, nanos: 0 },
                    },
                    TimedStep::Sleep(w.left),
                )
            },
        },
        TimedPhase::Sleeping { last } => (
            TimedWait { phase: TimedPhase::Polling { last }, ..w },
            TimedStep::Poll,
        ),
        TimedPhase::Finished(result) => (w, TimedStep::Done(result)),
    }
}

impl TimedWait {
    /// Takes the outcome of the last poll, if a poll was the last step,
    /// and says what to do next.
    pub fn step(&mut self, outcome: Result<Option<i32>, Error>) -> (next: TimedStep)
        ensures
            (*final(self), next) == timed_next(*old(self), outcome),
    {
        match self.phase {
            TimedPhase::Start => {
                self.phase = TimedPhase::Polling { last: false };
                TimedStep::Poll
            },
            TimedPhase::Polling { last } => match outcome {
                Err(e) => {
                    self.phase = TimedPhase::Finished(Err(e));
                    TimedStep::Done(Err(e))
                },
                Ok(Some(status)) => {
                    self.phase = TimedPhase::Finished(Ok(Some(status)));
                    TimedStep::Done(Ok(Some(status)))
                },
                Ok(None) => {
                    if last {
                        self.phase = TimedPhase::Finished(Ok(None));
                        TimedStep::Done(Ok(None))
                    } else if self.left.secs >= POLL_INTERVAL {
                        self.phase = TimedPhase::Sleeping { last: false };
                        self.left = Timeout {
                            secs: self.left.secs - POLL_INTERVAL,
                            nanos: self.left.nanos,
                        };
                        TimedStep::Sleep(Timeout { secs: POLL_INTERVAL, nanos: 0 })
                    } else {
                        let rest = self.left;
                        self.phase = TimedPhase::Sleeping { last: true };
                        self.left = Timeout { secs: 0, nanos: 0 };
                        TimedStep::Sleep(rest)
                    }
                },
            },
            TimedPhase::Sleeping { last } => {
                self.phase = TimedPhase::Polling { last };
                TimedStep::Poll
            },
            TimedPhase::Finished(result) => TimedStep::Done(result),
        }
    }
}

/// A timed wait for a process that has been reaped is over at once,
/// whatever the timeout: its first step gives the status that is remembered,
/// and neither the system nor sleep is asked for.
pub proof fn lemma_timed_wait_of_exited(
    p: ProcessView,
    timeout: Timeout,
    outcome: Result<Option<i32>, Error>,
)
    requires
        p.exit_status is Some,
    ensures
        timed_next(timed_start(p, timeout), outcome).1 == TimedStep::Done(Ok(p.exit_status)),
        timed_next(timed_start(p, timeout), outcome).0 == timed_start(p, timeout),
{
}

/// A span of time in nanoseconds.
pub open spec fn nanoseconds(time: Timeout) -> int {
    time.secs * 1_000_000_000 + time.nanos
}

/// A timed wait sleeps no longer than its timeout: whenever it asks for
/// sleep, what it asks for and what is left afterwards are together what was
/// left before. And it asks for sleep only when a poll, which was not the
/// last one, has found the process running.
pub proof fn lemma_timed_wait_sleeps_what_is_left(
    w: TimedWait,
    outcome: Result<Option<i32>, Error>,
)
    ensures
        match timed_next(w, outcome).1 {
            TimedStep::Sleep(time) => {
                &&& w.phase == (TimedPhase::Polling { last: false })
                &&& outcome == Ok::<Option<i32>, Error>(None)
                &&& nanoseconds(time) + nanoseconds(timed_next(w, outcome).0.left) == nanoseconds(
                    w.left,
                )
            },
            _ => timed_next(w, outcome).0.left == w.left,
        },
{
}

/// One step of taking a process down.
#[derive(Clone, Copy, Debug, PartialEq, Eq, Structural)]
pub enum TeardownStep {
    /// Send this signal, as `Process::kill` says.
    Kill(Signal),
    /// Wait for the process for at most this long.
    WaitTimeout(Timeout),
    /// Wait until the process has terminated.
    Wait,
}

/// How long a process is given to terminate before it is killed, in
/// seconds.
pub const GRACE_PERIOD: u64 = 10;

/// The steps that take a process down, in their order.
pub open spec fn teardown_steps() -> Seq<TeardownStep> {
    seq![
        TeardownStep::Kill(Signal::Terminate),
        TeardownStep::WaitTimeout(Timeout { secs: GRACE_PERIOD, nanos: 0 }),
        TeardownStep::Kill(Signal::Kill),
        TeardownStep::Wait,
    ]
}

/// The step of a teardown at this position, counted from 0, if there is
/// one. The process is asked to terminate, given the grace period, killed,
/// and at last waited for, so that no zombie is left. A step that fails
/// does not stop the teardown: the next step follows whatever came of it.
pub fn teardown_step(position: usize) -> (step: Option<TeardownStep>)
    ensures
        step == if position < teardown_steps().len() {
            Some(teardown_steps()[position as int])
        } else {
            None
        },
{
    if position == 0 {
        Some(TeardownStep::Kill(Signal::Terminate))
    } else if position == 1 {
        Some(TeardownStep::WaitTimeout(Timeout { secs: GRACE_PERIOD, nanos: 0 }))
    } else if position == 2 {
        Some(TeardownStep::Kill(Signal::Kill))
    } else if position == 3 {
        Some(TeardownStep::Wait)
    } else {
        None
    }
}

} // verus!
