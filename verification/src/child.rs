//! The child's side of a launch.
//!
//! Between the fork and the program the child does a fixed series of
//! things, each of them a few system calls, and does them without touching
//! anything that it shares with the other threads of the process that it was
//! forked from. What is due next is decided here; the caller makes the
//! system calls and reports what came of them. When anything fails the child
//! reports the error code through the error channel and terminates.

use crate::error::Error;
use crate::process::Signal;
use crate::sys::{
    flags_with, scan_inv, set_close_on_exec, Platform, ScanPhase, ScanView, HAND_OFF_SLOT,
};
use vstd::prelude::*;

verus! {

/// The exit status of a child that could not execute the program.
pub const EXIT_FAILURE: i32 = 1;

/// What the child is asked to do next.
#[derive(Clone, Copy, Debug, PartialEq, Eq, Structural)]
pub enum ChildStep {
    /// Give this signal its default disposition.
    ResetSignal(Signal),
    /// Mark every open descriptor from `min` upward close-on-exec.
    Hygiene { min: i32 },
    /// Do what the launch request asks of the child before the program is
    /// executed.
    Customize,
    /// Execute the program. This returns only if it fails.
    Exec,
    /// Write the message for this error code to the error channel, and
    /// terminate with `EXIT_FAILURE` by the exit that runs no cleanup.
    Report(i32),
}

/// Where the child stands.
#[derive(Clone, Copy, Debug, PartialEq, Eq, Structural)]
pub enum ChildState {
    /// This many steps have been asked for, and none has failed.
    Running(usize),
    /// A step has failed with this error code.
    Failed(i32),
}

/// The steps of a child in their order: the signals whose disposition it
/// may have inherited are reset, the descriptors behind the standard
/// streams are marked, the hand-off is prepared and the program is executed.
pub open spec fn child_steps() -> Seq<ChildStep> {
    seq![
        ChildStep::ResetSignal(Signal::ChildExit),
        ChildStep::ResetSignal(Signal::Interrupt),
        ChildStep::ResetSignal(Signal::Terminate),
        ChildStep::ResetSignal(Signal::HangUp),
        ChildStep::ResetSignal(Signal::BrokenPipe),
        ChildStep::Hygiene { min: HAND_OFF_SLOT },
        ChildStep::Customize,
        ChildStep::Exec,
    ]
}

/// The error code that the child reports for a failure: the code of the
/// operating system if the failure has one, else `fallback`.
pub open spec fn report_code(e: Error, fallback: i32) -> i32 {
    match e.code() {
        Some(code) => code,
        None => fallback,
    }
}

/// The child after the step that it was asked to do, and what it is asked
/// next. `outcome` is what came of the last step; before the first step it
/// has no meaning.
///
/// The steps follow each other as long as each succeeds. The first one
/// that fails is reported, and so is the return of the last one, which does
/// not return unless it fails. After that nothing but the report is asked
/// for.
pub open spec fn child_next(state: ChildState, outcome: Result<(), Error>, fallback: i32) -> (
    ChildState,
    ChildStep,
) {
    match state {
        ChildState::Running(done) => {
            if done > 0 && outcome is Err {
                let code = report_code(outcome->Err_0, fallback);
                (ChildState::Failed(code), ChildStep::Report(code))
            } else if done < child_steps().len() {
                (ChildState::Running((done + 1) as usize), child_steps()[done as int])
            } else {
                (ChildState::Failed(fallback), ChildStep::Report(fallback))
            }
        },
        ChildState::Failed(code) => (state, ChildStep::Report(code)),
    }
}

/// The child's side of a launch.
#[derive(Clone, Copy, Debug)]
pub struct Child {
    pub state: ChildState,
    /// The error code that is reported for a failure that has none.
    pub fallback: i32,
}

impl Child {
    /// A child that has done nothing yet.
    pub fn new(platform: &Platform) -> (child: Child)
        ensures
            child == (Child { state: ChildState::Running(0), fallback: platform.invalid_argument }),
    {
        Child { state: ChildState::Running(0), fallback: platform.invalid_argument }
    }

    /// Takes what came of the last step and says what to do next.
    pub fn step(&mut self, outcome: Result<(), Error>) -> (next: ChildStep)
        ensures
            (final(self).state, next) == child_next(old(self).state, outcome, old(self).fallback),
            final(self).fallback == old(self).fallback,
    {
        match self.state {
            ChildState::Running(done) => {
                let failure = match outcome {
                    Err(e) if done > 0 => Some(e),
                    _ => None,
                };
                if let Some(e) = failure {
                    let code = match e.raw_os_error() {
                        Some(code) => code,
                        None => self.fallback,
                    };
                    self.state = ChildState::Failed(code);
                    ChildStep::Report(code)
                } else if done < 8 {
                    self.state = ChildState::Running(done + 1);
                    if done == 0 {
                        ChildStep::ResetSignal(Signal::ChildExit)
                    } else if done == 1 {
                        ChildStep::ResetSignal(Signal::Interrupt)
                    } else if done == 2 {
                        ChildStep::ResetSignal(Signal::Terminate)
                    } else if done == 3 {
                        ChildStep::ResetSignal(Signal::HangUp)
                    } else if done == 4 {
                        ChildStep::ResetSignal(Signal::BrokenPipe)
                    } else if done == 5 {
                        ChildStep::Hygiene { min: HAND_OFF_SLOT }
                    } else if done == 6 {
                        ChildStep::Customize
                    } else {
                        ChildStep::Exec
                    }
                } else {
                    self.state = ChildState::Failed(self.fallback);
                    ChildStep::Report(self.fallback)
                }
            },
            ChildState::Failed(code) => ChildStep::Report(code),
        }
    }
}

/// The program is executed only by a child all of whose earlier steps have
/// succeeded: the signals are reset, the descriptors are marked and the
/// hand-off is done. A child that has failed asks for nothing but the report
/// of the error code that it has failed with.
pub proof fn lemma_exec_follows_success(state: ChildState, outcome: Result<(), Error>, fallback: i32)
    ensures
        child_next(state, outcome, fallback).1 is Exec ==> state == ChildState::Running(7)
            && outcome is Ok,
        match (state, child_next(state, outcome, fallback).0) {
            (ChildState::Running(done), ChildState::Running(next)) => next == done + 1 && (done
                == 0 || outcome is Ok),
            (ChildState::Failed(code), after) => after == state && child_next(
                state,
                outcome,
                fallback,
            ).1 == ChildStep::Report(code),
            _ => true,
        },
{
}

/// What the child does to the hand-off slot before the program is
/// executed.
#[derive(Clone, Copy, Debug, PartialEq, Eq, Structural)]
pub struct HandOff {
    /// The descriptor that the program is to find in the hand-off slot.
    pub source: i32,
    /// Whether the child's process id is announced to the program in its
    /// environment.
    pub announce_pid: bool,
}

/// What a hand-off asks the child to do next.
#[derive(Clone, Copy, Debug, PartialEq, Eq)]
pub enum HandOffStep {
    /// Duplicate `from` onto `to`, which closes what `to` was.
    Duplicate { from: i32, to: i32 },
    /// Get the descriptor's flags and report them.
    GetFlags(i32),
    /// Set the descriptor's flags.
    SetFlags { fd: i32, flags: i32 },
    /// Write the entry that announces the process id of this process into
    /// the environment that the program is executed with.
    AnnouncePid,
    /// The hand-off is over.
    Done(Result<(), Error>),
}

/// Where a hand-off stands.
#[derive(Clone, Copy, Debug, PartialEq, Eq)]
pub enum HandOffPhase {
    Start,
    Duplicating,
    GettingFlags,
    SettingFlags,
    Announcing,
    Finished(Result<(), Error>),
}

/// The end of a hand-off.
pub open spec fn hand_off_finish(result: Result<(), Error>) -> (HandOffPhase, HandOffStep) {
    (HandOffPhase::Finished(result), HandOffStep::Done(result))
}

/// What follows once the slot survives the execution of the program.
pub open spec fn hand_off_announce(hand_off: HandOff) -> (HandOffPhase, HandOffStep) {
    if hand_off.announce_pid {
        (HandOffPhase::Announcing, HandOffStep::AnnouncePid)
    } else {
        hand_off_finish(Ok(()))
    }
}

/// A hand-off after the step that was asked for, and what is asked next.
/// `outcome` is what came of the last step; its value is the flags after
/// `GetFlags` and has no meaning otherwise.
///
/// The source is duplicated onto the slot unless it is there already. Then
/// the slot is made to survive the execution of the program: its
/// close-on-exec flag is cleared if it is set. At last the process id is
/// announced if the hand-off asks for it. The first failure ends the
/// hand-off.
pub open spec fn hand_off_next(
    hand_off: HandOff,
    phase: HandOffPhase,
    outcome: Result<i32, Error>,
    close_on_exec: i32,
) -> (HandOffPhase, HandOffStep) {
    match phase {
        HandOffPhase::Start => if hand_off.source != HAND_OFF_SLOT {
            (
                HandOffPhase::Duplicating,
                HandOffStep::Duplicate { from: hand_off.source, to: HAND_OFF_SLOT },
            )
        } else {
            (HandOffPhase::GettingFlags, HandOffStep::GetFlags(HAND_OFF_SLOT))
        },
        HandOffPhase::Finished(result) => (phase, HandOffStep::Done(result)),
        _ => match outcome {
            Err(e) => hand_off_finish(Err(e)),
            Ok(value) => match phase {
                HandOffPhase::Duplicating => (
                    HandOffPhase::GettingFlags,
                    HandOffStep::GetFlags(HAND_OFF_SLOT),
                ),
                HandOffPhase::GettingFlags => if flags_with(value, close_on_exec, false) != value {
                    (
                        HandOffPhase::SettingFlags,
                        HandOffStep::SetFlags {
                            fd: HAND_OFF_SLOT,
                            flags: flags_with(value, close_on_exec, false),
                        },
                    )
                } else {
                    hand_off_announce(hand_off)
                },
                HandOffPhase::SettingFlags => hand_off_announce(hand_off),
                _ => hand_off_finish(Ok(())),
            },
        },
    }
}

/// A hand-off in progress.
#[derive(Clone, Copy, Debug)]
pub struct Customize {
    pub hand_off: HandOff,
    pub phase: HandOffPhase,
}

impl Customize {
    /// A hand-off that has not begun.
    pub fn new(hand_off: HandOff) -> (c: Customize)
        ensures
            c == (Customize { hand_off, phase: HandOffPhase::Start }),
    {
        Customize { hand_off, phase: HandOffPhase::Start }
    }

    fn announce(&mut self) -> (next: HandOffStep)
        ensures
            (final(self).phase, next) == hand_off_announce(old(self).hand_off),
            final(self).hand_off == old(self).hand_off,
    {
        if self.hand_off.announce_pid {
            self.phase = HandOffPhase::Announcing;
            HandOffStep::AnnouncePid
        } else {
            self.phase = HandOffPhase::Finished(Ok(()));
            HandOffStep::Done(Ok(()))
        }
    }

    /// Takes what came of the last step and says what to do next.
    pub fn step(&mut self, outcome: Result<i32, Error>, platform: &Platform) -> (next: HandOffStep)
        ensures
            (final(self).phase, next) == hand_off_next(
                old(self).hand_off,
                old(self).phase,
                outcome,
                platform.close_on_exec,
            ),
            final(self).hand_off == old(self).hand_off,
    {
        match self.phase {
            HandOffPhase::Start => {
                if self.hand_off.source != HAND_OFF_SLOT {
                    self.phase = HandOffPhase::Duplicating;
                    HandOffStep::Duplicate { from: self.hand_off.source, to: HAND_OFF_SLOT }
                } else {
                    self.phase = HandOffPhase::GettingFlags;
                    HandOffStep::GetFlags(HAND_OFF_SLOT)
                }
            },
            HandOffPhase::Finished(result) => HandOffStep::Done(result),
            phase => match outcome {
                Err(e) => {
                    self.phase = HandOffPhase::Finished(Err(e));
                    HandOffStep::Done(Err(e))
                },
                Ok(value) => match phase {
                    HandOffPhase::Duplicating => {
                        self.phase = HandOffPhase::GettingFlags;
                        HandOffStep::GetFlags(HAND_OFF_SLOT)
                    },
                    HandOffPhase::GettingFlags => match set_close_on_exec(value, false, platform) {
                        Some(flags) => {
                            self.phase = HandOffPhase::SettingFlags;
                            HandOffStep::SetFlags { fd: HAND_OFF_SLOT, flags }
                        },
                        None => self.announce(),
                    },
                    HandOffPhase::SettingFlags => self.announce(),
                    _ => {
                        self.phase = HandOffPhase::Finished(Ok(()));
                        HandOffStep::Done(Ok(()))
                    },
                },
            },
        }
    }
}

/// The descriptors of a process after those in `marked` were marked
/// close-on-exec. A table of descriptors holds each open descriptor with
/// its close-on-exec flag.
pub open spec fn after_marks(table: Map<int, bool>, marked: Set<int>) -> Map<int, bool> {
    Map::new(|fd: int| table.dom().contains(fd), |fd: int| table[fd] || marked.contains(fd))
}

/// The descriptors of a process after the hand-off: the slot is open and
/// is not closed when a program is executed.
pub open spec fn after_hand_off(table: Map<int, bool>) -> Map<int, bool> {
    table.insert(HAND_OFF_SLOT as int, false)
}

/// The descriptors that a program inherits from the process that executes
/// it: those that are open and not close-on-exec.
pub open spec fn inherited(table: Map<int, bool>) -> Set<int> {
    Set::new(|fd: int| table.dom().contains(fd) && !table[fd])
}

/// The program inherits the hand-off slot and, of the descriptors of the
/// parent, at most the standard streams. This holds of a child that has
/// marked what a scan from the hand-off slot upward asked it to mark, and
/// has then done the hand-off, if the scan has ended well, no descriptor
/// lies at or above the limit, and no descriptor that is open was found not
/// open.
pub proof fn lemma_program_inherits_only_the_slot(scan: ScanView, table: Map<int, bool>)
    requires
        scan_inv(scan),
        scan.phase == ScanPhase::Finished(Ok(())),
        scan.min == HAND_OFF_SLOT,
        forall|fd: int| table.dom().contains(fd) ==> fd < scan.limit,
        forall|fd: int| table.dom().contains(fd) ==> !scan.closed.contains(fd),
    ensures
        inherited(after_hand_off(after_marks(table, scan.marked))).contains(HAND_OFF_SLOT as int),
        forall|fd: int|
            inherited(after_hand_off(after_marks(table, scan.marked))).contains(fd) ==> fd
                <= HAND_OFF_SLOT,
{
    crate::sys::lemma_scan_is_complete(scan);
    let end = after_hand_off(after_marks(table, scan.marked));
    assert forall|fd: int| inherited(end).contains(fd) implies fd <= HAND_OFF_SLOT by {
        if fd > HAND_OFF_SLOT {
            assert(table.dom().contains(fd));
            assert(scan.open.contains(fd) || scan.closed.contains(fd));
            assert(scan.marked.contains(fd));
        }
    }
}

} // verus!
