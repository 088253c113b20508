//! Pipes whose descriptors do not leak into a program that is executed.
//!
//! Both ends of a pipe are close-on-exec. Where a pipe can be created with
//! the flag, it is; where it cannot, the flag is set right after the pipe is
//! created, and a process that is forked in between inherits the
//! descriptors without it.

use crate::error::Error;
use vstd::prelude::*;

verus! {

/// One end of a pipe. The end owns its descriptor: whoever holds the end
/// closes the descriptor, once.
#[derive(Debug)]
pub struct Pipe {
    fd: i32,
}

impl View for Pipe {
    type V = i32;

    closed spec fn view(&self) -> i32 {
        self.fd
    }
}

/// A transfer of bytes through a descriptor.
#[derive(Clone, Copy, Debug, PartialEq, Eq, Structural)]
pub enum Transfer {
    /// Read at most `len` bytes from `fd`.
    Read { fd: i32, len: usize },
    /// Write at most `len` bytes to `fd`.
    Write { fd: i32, len: usize },
}

/// The number of bytes that a transfer has moved, or the error code that it
/// left behind: what the system call returned is the number unless it is
/// -1.
pub open spec fn transfer_result(ret: isize, errno: i32) -> Result<usize, Error> {
    if ret == -1 {
        Err(Error::Os(errno))
    } else {
        Ok(ret as usize)
    }
}

impl Pipe {
    /// Begins the creation of a pipe. `atomic` says whether the platform
    /// creates a pipe whose ends are close-on-exec from the start.
    pub fn new(atomic: bool) -> (creation: PipeCreation)
        ensures
            creation.state == (PipeState::Start { atomic }),
    {
        PipeCreation { state: PipeState::Start { atomic } }
    }

    /// The end of a pipe with this descriptor.
    pub fn from_fd(fd: i32) -> (pipe: Pipe)
        ensures
            pipe@ == fd,
    {
        Pipe { fd }
    }

    /// Gives up the end for its descriptor.
    pub fn into_raw_fd(self) -> (fd: i32)
        ensures
            fd == self@,
    {
        let Pipe { fd } = self;
        fd
    }

    /// The descriptor of this end.
    pub fn as_raw_fd(&self) -> (fd: i32)
        ensures
            fd == self@,
    {
        self.fd
    }

    /// What to do to read into a buffer of `len` bytes.
    pub fn read(&self, len: usize) -> (transfer: Transfer)
        ensures
            transfer == (Transfer::Read { fd: self@, len }),
    {
        Transfer::Read { fd: self.fd, len }
    }

    /// What to do to write a buffer of `len` bytes.
    pub fn write(&self, len: usize) -> (transfer: Transfer)
        ensures
            transfer == (Transfer::Write { fd: self@, len }),
    {
        Transfer::Write { fd: self.fd, len }
    }

    /// Takes what a transfer returned, and the error code that was current
    /// when it returned, and gives the number of bytes that it has moved.
    pub fn transferred(ret: isize, errno: i32) -> (result: Result<usize, Error>)
        ensures
            result == transfer_result(ret, errno),
    {
        if ret == -1 {
            Err(Error::Os(errno))
        } else {
            let moved = #[verifier::truncate]
            (ret as usize);
            Ok(moved)
        }
    }

    /// What is written is passed on at once: there is nothing to flush.
    pub fn flush(&self) -> (result: Result<(), Error>)
        ensures
            result == Ok::<(), Error>(()),
    {
        Ok(())
    }
}

/// What the creation of a pipe asks its caller to do next.
#[derive(Clone, Copy, Debug, PartialEq, Eq, Structural)]
pub enum PipeStep {
    /// Create a pipe, with both ends close-on-exec from the start if
    /// `close_on_exec` is set.
    Create { close_on_exec: bool },
    /// Mark this descriptor close-on-exec.
    Mark(i32),
    /// Close this descriptor.
    Close(i32),
    /// The creation is over: `PipeCreation::finish` has its result.
    Done,
}

/// What the caller reports of the step that it was asked to do.
#[derive(Clone, Copy, Debug, PartialEq, Eq, Structural)]
pub enum PipeEvent {
    /// The pipe was created, with these ends.
    Created { read: i32, write: i32 },
    /// The descriptor was marked.
    Marked,
    /// The descriptor was closed.
    Closed,
    /// The system call failed.
    Failed(Error),
}

/// Where the creation of a pipe stands.
#[derive(Clone, Copy, Debug, PartialEq, Eq)]
pub enum PipeState {
    /// Nothing was done yet. `atomic` says whether the platform creates a
    /// pipe with the flag.
    Start { atomic: bool },
    /// The read end is about to be marked.
    MarkingRead { read: i32, write: i32 },
    /// The write end is about to be marked.
    MarkingWrite { read: i32, write: i32 },
    /// An end could not be marked; the write end is about to be closed.
    ClosingWrite { read: i32, write: i32, error: Error },
    /// An end could not be marked; the read end is about to be closed.
    ClosingRead { read: i32, error: Error },
    /// The creation is over.
    Finished(Result<(i32, i32), Error>),
}

/// What a creation in this state asks for.
pub open spec fn pipe_pending(state: PipeState) -> PipeStep {
    match state {
        PipeState::Start { atomic } => PipeStep::Create { close_on_exec: atomic },
        PipeState::MarkingRead { read, write } => PipeStep::Mark(read),
        PipeState::MarkingWrite { read, write } => PipeStep::Mark(write),
        PipeState::ClosingWrite { read, write, error } => PipeStep::Close(write),
        PipeState::ClosingRead { read, error } => PipeStep::Close(read),
        PipeState::Finished(result) => PipeStep::Done,
    }
}

/// The state of a creation after the caller has reported `event`. An event
/// that does not answer the step that was asked for changes nothing.
///
/// A pipe that was created with the flag is ready. One that was created
/// without it has its ends marked, the read end first. If an end cannot be
/// marked both ends are closed, the write end first, and the creation has
/// failed.
pub open spec fn pipe_next(state: PipeState, event: PipeEvent) -> PipeState {
    match (state, event) {
        (PipeState::Start { atomic }, PipeEvent::Created { read, write }) => if atomic {
            PipeState::Finished(Ok((read, write)))
        } else {
            PipeState::MarkingRead { read, write }
        },
        (PipeState::Start { atomic }, PipeEvent::Failed(e)) => PipeState::Finished(Err(e)),
        (PipeState::MarkingRead { read, write }, PipeEvent::Marked) => PipeState::MarkingWrite {
            read,
            write,
        },
        (PipeState::MarkingRead { read, write }, PipeEvent::Failed(e)) => PipeState::ClosingWrite {
            read,
            write,
            error: e,
        },
        (PipeState::MarkingWrite { read, write }, PipeEvent::Marked) => PipeState::Finished(
            Ok((read, write)),
        ),
        (PipeState::MarkingWrite { read, write }, PipeEvent::Failed(e)) => PipeState::ClosingWrite {
            read,
            write,
            error: e,
        },
        (PipeState::ClosingWrite { read, write, error }, PipeEvent::Closed) => PipeState::ClosingRead {
            read,
            error,
        },
        (PipeState::ClosingRead { read, error }, PipeEvent::Closed) => PipeState::Finished(
            Err(error),
        ),
        _ => state,
    }
}

/// The descriptors that a creation in this state holds and has yet to
/// close, and those that it hands to its caller at the end.
pub open spec fn pipe_held(state: PipeState) -> Seq<int> {
    match state {
        PipeState::Start { atomic } => seq![],
        PipeState::MarkingRead { read, write } => seq![read as int, write as int],
        PipeState::MarkingWrite { read, write } => seq![read as int, write as int],
        PipeState::ClosingWrite { read, write, error } => seq![read as int, write as int],
        PipeState::ClosingRead { read, error } => seq![read as int],
        PipeState::Finished(Ok((read, write))) => seq![read as int, write as int],
        PipeState::Finished(Err(e)) => seq![],
    }
}

/// The creation of a pipe. It is given up for the two ends, so that each
/// end has one owner.
#[derive(Debug)]
pub struct PipeCreation {
    pub state: PipeState,
}

impl PipeCreation {
    /// What the creation asks for now.
    pub fn pending(&self) -> (step: PipeStep)
        ensures
            step == pipe_pending(self.state),
    {
        match self.state {
            PipeState::Start { atomic } => PipeStep::Create { close_on_exec: atomic },
            PipeState::MarkingRead { read, write } => PipeStep::Mark(read),
            PipeState::MarkingWrite { read, write } => PipeStep::Mark(write),
            PipeState::ClosingWrite { read, write, error } => PipeStep::Close(write),
            PipeState::ClosingRead { read, error } => PipeStep::Close(read),
            PipeState::Finished(result) => PipeStep::Done,
        }
    }

    /// Takes what the caller reports of the step that was asked for, and
    /// says what to do next.
    pub fn step(&mut self, event: PipeEvent) -> (next: PipeStep)
        ensures
            final(self).state == pipe_next(old(self).state, event),
            next == pipe_pending(final(self).state),
    {
        let state = match (self.state, event) {
            (PipeState::Start { atomic }, PipeEvent::Created { read, write }) => {
                if atomic {
                    PipeState::Finished(Ok((read, write)))
                } else {
                    PipeState::MarkingRead { read, write }
                }
            },
            (PipeState::Start { atomic }, PipeEvent::Failed(e)) => PipeState::Finished(Err(e)),
            (PipeState::MarkingRead { read, write }, PipeEvent::Marked) => {
                PipeState::MarkingWrite { read, write }
            },
            (PipeState::MarkingRead { read, write }, PipeEvent::Failed(e)) => {
                PipeState::ClosingWrite { read, write, error: e }
            },
            (PipeState::MarkingWrite { read, write }, PipeEvent::Marked) => {
                PipeState::Finished(Ok((read, write)))
            },
            (PipeState::MarkingWrite { read, write }, PipeEvent::Failed(e)) => {
                PipeState::ClosingWrite { read, write, error: e }
            },
            (PipeState::ClosingWrite { read, write, error }, PipeEvent::Closed) => {
                PipeState::ClosingRead { read, error }
            },
            (PipeState::ClosingRead { read, error }, PipeEvent::Closed) => {
                PipeState::Finished(Err(error))
            },
            _ => self.state,
        };
        self.state = state;
        self.pending()
    }

    /// The result of the creation: the read end and the write end, or why
    /// there is no pipe. `None` while the creation is not over.
    pub fn finish(self) -> (result: Option<Result<(Pipe, Pipe), Error>>)
        ensures
            match self.state {
                PipeState::Finished(Ok((read, write))) => result matches Some(Ok(ends))
                    && ends.0@ == read && ends.1@ == write,
                PipeState::Finished(Err(e)) => result matches Some(Err(err)) && err == e,
                _ => result is None,
            },
    {
        match self.state {
            PipeState::Finished(Ok((read, write))) => Some(
                Ok((Pipe::from_fd(read), Pipe::from_fd(write))),
            ),
            PipeState::Finished(Err(e)) => Some(Err(e)),
            _ => None,
        }
    }
}

/// A creation that fails leaves no descriptor open. The creation holds the
/// two descriptors of the pipe from the moment they exist. It gives one up
/// only by asking that it be closed. At a failure it holds none; at a
/// success it holds the two ends, which it hands to its caller.
pub proof fn lemma_pipe_is_accounted_for(state: PipeState, event: PipeEvent)
    ensures
        state is Start ==> pipe_held(state).len() == 0,
        state matches PipeState::Finished(Err(_)) ==> pipe_held(state).len() == 0,
        state matches PipeState::Finished(Ok((read, write))) ==> pipe_held(state) == seq![
            read as int,
            write as int,
        ],
        ({
            let before = pipe_held(state);
            let after = pipe_held(pipe_next(state, event));
            match (state, event) {
                (PipeState::Start { atomic }, PipeEvent::Created { read, write }) => after == seq![
                    read as int,
                    write as int,
                ],
                (_, PipeEvent::Closed) => match pipe_pending(state) {
                    PipeStep::Close(fd) => before == after.push(fd as int),
                    _ => after == before,
                },
                _ => after == before,
            }
        }),
{
    let before = pipe_held(state);
    let after = pipe_held(pipe_next(state, event));
    match (state, event) {
        (PipeState::ClosingWrite { read, write, error }, PipeEvent::Closed) => {
            assert(before =~= after.push(write as int));
        },
        (PipeState::ClosingRead { read, error }, PipeEvent::Closed) => {
            assert(before =~= after.push(read as int));
        },
        _ => {},
    }
}

} // verus!
