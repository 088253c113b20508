//! The parent's side of a launch.
//!
//! The parent creates the error channel, forks, and reads the channel until
//! it is closed or a whole message has come. Every descriptor that it gets
//! on the way is closed again before the launch is over, whatever comes of
//! it. What is due next is decided here; the caller makes the system call
//! and reports what it returned.

use crate::channel::{message_code, verdict, Verdict, MESSAGE_LEN};
use crate::error::Error;
use crate::process::Process;
use crate::sys::{Platform, HAND_OFF_SLOT};
use vstd::endian::endianness;
use vstd::prelude::*;

verus! {

/// What a launch asks its caller to do next.
#[derive(Clone, Copy, Debug, PartialEq, Eq, Structural)]
pub enum SpawnStep {
    /// Create a pipe with both ends close-on-exec.
    Pipe,
    /// Duplicate `fd` onto the lowest free descriptor that is not below
    /// `min`; the new descriptor is close-on-exec.
    Relocate { fd: i32, min: i32 },
    /// Close this descriptor.
    Close(i32),
    /// Fork.
    Fork,
    /// This is the child: do the child's part with this descriptor as the
    /// error channel. It does not return.
    Child { error_channel: i32 },
    /// Read at most `len` bytes from `fd`.
    Read { fd: i32, len: usize },
    /// Wait until the process with this id has terminated. Whether this
    /// works or not does not matter.
    Reap { pid: i32 },
    /// The launch is over: `Spawn::finish` has its result.
    Done,
}

/// What the caller reports of the step that it was asked to do.
#[derive(Clone, Copy, Debug)]
pub enum SpawnEvent<'a> {
    /// The pipe was created, with these ends.
    Piped { read: i32, write: i32 },
    /// The descriptor was duplicated onto this one.
    Relocated(i32),
    /// The descriptor was closed.
    Closed,
    /// The fork returned this value: 0 in the child, the child's id in the
    /// parent.
    Forked(i32),
    /// These bytes were read; none means that the other end is closed.
    Received(&'a [u8]),
    /// The child was waited for.
    Reaped,
    /// The system call failed.
    Failed(Error),
}

/// The part of a message that has come so far: fewer bytes than a message
/// has.
#[derive(Clone, Copy, Debug, PartialEq, Eq, Structural)]
pub struct Partial {
    pub len: u8,
    pub first: u8,
    pub second: u8,
    pub third: u8,
}

impl Partial {
    /// The bytes that have come.
    pub open spec fn bytes(self) -> Seq<u8> {
        seq![self.first, self.second, self.third].take(
            if self.len <= 3 {
                self.len as int
            } else {
                3
            },
        )
    }
}

/// Where a launch stands.
#[derive(Clone, Copy, Debug, PartialEq, Eq)]
pub enum SpawnState {
    /// Nothing was done yet.
    Start,
    /// The write end of the error channel is about to be moved out of the
    /// way of the hand-off slot.
    Relocating { read: i32, write: i32 },
    /// The write end was duplicated; the descriptor that it was is about to
    /// be closed.
    Replacing { read: i32, old: i32, write: i32 },
    /// The error channel is ready.
    Forking { read: i32, write: i32 },
    /// This process is the child.
    Child { read: i32, write: i32 },
    /// This process is the parent of `pid`, and is about to close its write
    /// end of the error channel.
    Releasing { pid: i32, read: i32, write: i32 },
    /// The parent reads the error channel.
    Reading { pid: i32, read: i32, received: Partial },
    /// The child has reported this error code and is about to be reaped.
    Reaping { pid: i32, read: i32, code: i32 },
    /// The outcome is known; `first` is about to be closed, and `second`
    /// after it.
    Closing { first: i32, second: Option<i32>, result: Result<i32, Error> },
    /// The launch is over.
    Finished(Result<i32, Error>),
}

/// What a launch in this state asks for.
pub open spec fn pending(state: SpawnState) -> SpawnStep {
    match state {
        SpawnState::Start => SpawnStep::Pipe,
        SpawnState::Relocating { read, write } => SpawnStep::Relocate {
            fd: write,
            min: (HAND_OFF_SLOT + 1) as i32,
        },
        SpawnState::Replacing { read, old, write } => SpawnStep::Close(old),
        SpawnState::Forking { read, write } => SpawnStep::Fork,
        SpawnState::Child { read, write } => SpawnStep::Child { error_channel: write },
        SpawnState::Releasing { pid, read, write } => SpawnStep::Close(write),
        SpawnState::Reading { pid, read, received } => SpawnStep::Read {
            fd: read,
            len: (MESSAGE_LEN - received.bytes().len()) as usize,
        },
        SpawnState::Reaping { pid, read, code } => SpawnStep::Reap { pid },
        SpawnState::Closing { first, second, result } => SpawnStep::Close(first),
        SpawnState::Finished(result) => SpawnStep::Done,
    }
}

/// The descriptors that a launch in this state holds and has yet to close.
pub open spec fn held(state: SpawnState) -> Seq<int> {
    match state {
        SpawnState::Start => seq![],
        SpawnState::Relocating { read, write } => seq![read as int, write as int],
        SpawnState::Replacing { read, old, write } => seq![read as int, write as int, old as int],
        SpawnState::Forking { read, write } => seq![read as int, write as int],
        SpawnState::Child { read, write } => seq![read as int, write as int],
        SpawnState::Releasing { pid, read, write } => seq![read as int, write as int],
        SpawnState::Reading { pid, read, received } => seq![read as int],
        SpawnState::Reaping { pid, read, code } => seq![read as int],
        SpawnState::Closing { first, second, result } => match second {
            Some(second) => seq![second as int, first as int],
            None => seq![first as int],
        },
        SpawnState::Finished(result) => seq![],
    }
}

/// The outcome of a launch, as far as it is decided in this state.
pub open spec fn decided(state: SpawnState) -> Option<Result<i32, Error>> {
    match state {
        SpawnState::Reaping { pid, read, code } => Some(Err(Error::ExecFailed(code))),
        SpawnState::Closing { first, second, result } => Some(result),
        SpawnState::Finished(result) => Some(result),
        _ => None,
    }
}

/// The state in which the descriptors of the error channel are closed, the
/// write end first, before the launch ends with this error.
pub open spec fn abandon(read: i32, write: i32, e: Error) -> SpawnState {
    SpawnState::Closing { first: write, second: Some(read), result: Err(e) }
}

/// The part of a message after more bytes have come, for bytes that do not
/// complete it.
pub open spec fn partial_of(bytes: Seq<u8>) -> Partial {
    Partial {
        len: bytes.len() as u8,
        first: if bytes.len() > 0 {
            bytes[0]
        } else {
            0
        },
        second: if bytes.len() > 1 {
            bytes[1]
        } else {
            0
        },
        third: if bytes.len() > 2 {
            bytes[2]
        } else {
            0
        },
    }
}

/// The state of a parent that has read `data` from the error channel.
///
/// Nothing read means that the channel is closed: the program runs if
/// nothing had come before, and the child is broken if a part of a message
/// had. With a whole message the launch has failed, and the child is reaped
/// before the failure is reported. Bytes beyond a whole message are not
/// looked at.
pub open spec fn after_received(pid: i32, read: i32, received: Partial, data: Seq<u8>) -> SpawnState {
    let before = received.bytes();
    if data.len() == 0 {
        SpawnState::Closing {
            first: read,
            second: None,
            result: if before.len() == 0 {
                Ok(pid)
            } else {
                Err(Error::ProtocolViolation)
            },
        }
    } else {
        let missing = MESSAGE_LEN - before.len();
        if data.len() >= missing {
            SpawnState::Reaping {
                pid,
                read,
                code: message_code(endianness(), before + data.take(missing)),
            }
        } else {
            SpawnState::Reading { pid, read, received: partial_of(before + data) }
        }
    }
}

/// The state of a launch after the caller has reported `event`.
///
/// An event that does not answer the step that was asked for changes
/// nothing. A read that a signal interrupted, with the error code
/// `interrupted`, is asked for again.
pub open spec fn spawn_next(state: SpawnState, event: SpawnEvent<'_>, interrupted: i32) -> SpawnState {
    match (state, event) {
        (SpawnState::Start, SpawnEvent::Piped { read, write }) => if write <= HAND_OFF_SLOT {
            SpawnState::Relocating { read, write }
        } else {
            SpawnState::Forking { read, write }
        },
        (SpawnState::Start, SpawnEvent::Failed(e)) => SpawnState::Finished(Err(e)),
        (SpawnState::Relocating { read, write }, SpawnEvent::Relocated(fd)) => SpawnState::Replacing {
            read,
            old: write,
            write: fd,
        },
        (SpawnState::Relocating { read, write }, SpawnEvent::Failed(e)) => abandon(read, write, e),
        (SpawnState::Replacing { read, old, write }, SpawnEvent::Closed) => SpawnState::Forking {
            read,
            write,
        },
        (SpawnState::Forking { read, write }, SpawnEvent::Forked(pid)) => if pid == 0 {
            SpawnState::Child { read, write }
        } else {
            SpawnState::Releasing { pid, read, write }
        },
        (SpawnState::Forking { read, write }, SpawnEvent::Failed(e)) => abandon(read, write, e),
        (SpawnState::Releasing { pid, read, write }, SpawnEvent::Closed) => SpawnState::Reading {
            pid,
            read,
            received: partial_of(seq![]),
        },
        (SpawnState::Reading { pid, read, received }, SpawnEvent::Received(data)) => after_received(
            pid,
            read,
            received,
            data@,
        ),
        (SpawnState::Reading { pid, read, received }, SpawnEvent::Failed(e)) => if e == Error::Os(
            interrupted,
        ) {
            state
        } else {
            SpawnState::Closing { first: read, second: None, result: Err(e) }
        },
        (SpawnState::Reaping { pid, read, code }, SpawnEvent::Reaped) => SpawnState::Closing {
            first: read,
            second: None,
            result: Err(Error::ExecFailed(code)),
        },
        (SpawnState::Reaping { pid, read, code }, SpawnEvent::Failed(e)) => SpawnState::Closing {
            first: read,
            second: None,
            result: Err(Error::ExecFailed(code)),
        },
        (SpawnState::Closing { first, second, result }, SpawnEvent::Closed) => match second {
            Some(second) => SpawnState::Closing { first: second, second: None, result },
            None => SpawnState::Finished(result),
        },
        _ => state,
    }
}

/// The parent's side of a launch. A launch yields one handle at most: it
/// is given up for its result.
#[derive(Debug)]
pub struct Spawn {
    pub state: SpawnState,
    /// The error code of a system call that a signal interrupted.
    pub interrupted: i32,
}

/// Adds bytes to a part of a message; `before` is what had come and `data`
/// what has come now, and both together are less than a message.
fn extend(received: Partial, data: &[u8], Ghost(before): Ghost<Seq<u8>>) -> (partial: Partial)
    requires
        before == received.bytes(),
        before.len() + data.len() < MESSAGE_LEN,
    ensures
        partial == partial_of(before + data@),
{
    let mut got: [u8; 3] = [received.first, received.second, received.third];
    let base: usize = if received.len <= 3 {
        received.len as usize
    } else {
        3
    };
    let mut i: usize = 0;
    while i < data.len()
        invariant
            i <= data.len(),
            base == before.len(),
            before.len() + data.len() < MESSAGE_LEN,
            got@.take(base + i) == before + data@.take(i as int),
        decreases data.len() - i,
    {
        let ghost prev = got@;
        got[base + i] = data[i];
        proof {
            assert(got@ =~= prev.update(base + i, data@[i as int]));
            assert(got@.take(base + i) =~= prev.take(base + i));
            assert(got@.take(base + i + 1) =~= got@.take(base + i).push(data@[i as int]));
            assert(data@.take(i + 1) =~= data@.take(i as int).push(data@[i as int]));
            assert(got@.take(base + i + 1) =~= before + data@.take(i + 1));
        }
        i = i + 1;
    }
    proof {
        assert(data@.take(data.len() as int) =~= data@);
    }
    let len = base + data.len();
    let ghost all = before + data@;
    assert(all == got@.take(len as int));
    Partial {
        len: len as u8,
        first: if len > 0 {
            got[0]
        } else {
            0
        },
        second: if len > 1 {
            got[1]
        } else {
            0
        },
        third: if len > 2 {
            got[2]
        } else {
            0
        },
    }
}

/// The whole message that `data` completes.
fn complete(received: Partial, data: &[u8], Ghost(before): Ghost<Seq<u8>>) -> (message: [u8; 4])
    requires
        before == received.bytes(),
        data.len() >= MESSAGE_LEN - before.len(),
    ensures
        message@ == before + data@.take(MESSAGE_LEN - before.len()),
{
    let base: usize = if received.len <= 3 {
        received.len as usize
    } else {
        3
    };
    let mut message: [u8; 4] = [received.first, received.second, received.third, 0];
    let mut i: usize = base;
    while i < 4
        invariant
            base <= i <= 4,
            base == before.len(),
            data.len() >= MESSAGE_LEN - before.len(),
            message@.take(i as int) == before + data@.take(i - base),
        decreases 4 - i,
    {
        let ghost prev = message@;
        message[i] = data[i - base];
        proof {
            assert(message@ =~= prev.update(i as int, data@[i - base]));
            assert(message@.take(i as int) =~= prev.take(i as int));
            assert(message@.take(i + 1) =~= message@.take(i as int).push(data@[i - base]));
            assert(data@.take(i + 1 - base) =~= data@.take(i - base).push(data@[i - base]));
            assert(message@.take(i + 1) =~= before + data@.take(i + 1 - base));
        }
        i = i + 1;
    }
    proof {
        assert(message@.take(4) =~= message@);
    }
    message
}

impl Spawn {
    /// A launch that has not begun.
    pub fn new(platform: &Platform) -> (spawn: Spawn)
        ensures
            spawn == (Spawn { state: SpawnState::Start, interrupted: platform.interrupted }),
    {
        Spawn { state: SpawnState::Start, interrupted: platform.interrupted }
    }

    /// What the launch asks for now.
    pub fn pending(&self) -> (step: SpawnStep)
        ensures
            step == pending(self.state),
    {
        match self.state {
            SpawnState::Start => SpawnStep::Pipe,
            SpawnState::Relocating { read, write } => SpawnStep::Relocate {
                fd: write,
                min: HAND_OFF_SLOT + 1,
            },
            SpawnState::Replacing { read, old, write } => SpawnStep::Close(old),
            SpawnState::Forking { read, write } => SpawnStep::Fork,
            SpawnState::Child { read, write } => SpawnStep::Child { error_channel: write },
            SpawnState::Releasing { pid, read, write } => SpawnStep::Close(write),
            SpawnState::Reading { pid, read, received } => {
                let have: usize = if received.len <= 3 {
                    received.len as usize
                } else {
                    3
                };
                SpawnStep::Read { fd: read, len: MESSAGE_LEN - have }
            },
            SpawnState::Reaping { pid, read, code } => SpawnStep::Reap { pid },
            SpawnState::Closing { first, second, result } => SpawnStep::Close(first),
            SpawnState::Finished(result) => SpawnStep::Done,
        }
    }

    /// Takes what the caller reports of the step that was asked for, and
    /// says what to do next.
    ///
    /// The descriptor onto which the write end was moved lies above the
    /// hand-off slot: that is what was asked for.
    pub fn step(&mut self, event: SpawnEvent<'_>) -> (next: SpawnStep)
        requires
            old(self).state is Relocating ==> (event matches SpawnEvent::Relocated(fd) ==> fd
                > HAND_OFF_SLOT),
        ensures
            final(self).state == spawn_next(old(self).state, event, old(self).interrupted),
            final(self).interrupted == old(self).interrupted,
            next == pending(final(self).state),
    {
        let state = match (self.state, event) {
            (SpawnState::Start, SpawnEvent::Piped { read, write }) => {
                if write <= HAND_OFF_SLOT {
                    SpawnState::Relocating { read, write }
                } else {
                    SpawnState::Forking { read, write }
                }
            },
            (SpawnState::Start, SpawnEvent::Failed(e)) => SpawnState::Finished(Err(e)),
            (SpawnState::Relocating { read, write }, SpawnEvent::Relocated(fd)) => {
                SpawnState::Replacing { read, old: write, write: fd }
            },
            (SpawnState::Relocating { read, write }, SpawnEvent::Failed(e)) => {
                SpawnState::Closing { first: write, second: Some(read), result: Err(e) }
            },
            (SpawnState::Replacing { read, old, write }, SpawnEvent::Closed) => {
                SpawnState::Forking { read, write }
            },
            (SpawnState::Forking { read, write }, SpawnEvent::Forked(pid)) => {
                if pid == 0 {
                    SpawnState::Child { read, write }
                } else {
                    SpawnState::Releasing { pid, read, write }
                }
            },
            (SpawnState::Forking { read, write }, SpawnEvent::Failed(e)) => {
                SpawnState::Closing { first: write, second: Some(read), result: Err(e) }
            },
            (SpawnState::Releasing { pid, read, write }, SpawnEvent::Closed) => {
                SpawnState::Reading {
                    pid,
                    read,
                    received: Partial { len: 0, first: 0, second: 0, third: 0 },
                }
            },
            (SpawnState::Reading { pid, read, received }, SpawnEvent::Received(data)) => {
                let have: usize = if received.len <= 3 {
                    received.len as usize
                } else {
                    3
                };
                if data.len() == 0 {
                    let result = if have == 0 {
                        Ok(pid)
                    } else {
                        Err(Error::ProtocolViolation)
                    };
                    SpawnState::Closing { first: read, second: None, result }
                } else if data.len() >= MESSAGE_LEN - have {
                    let message = complete(received, data, Ghost(received.bytes()));
                    match verdict(&message) {
                        Verdict::Failed(code) => SpawnState::Reaping { pid, read, code },
                        _ => self.state,
                    }
                } else {
                    SpawnState::Reading {
                        pid,
                        read,
                        received: extend(received, data, Ghost(received.bytes())),
                    }
                }
            },
            (SpawnState::Reading { pid, read, received }, SpawnEvent::Failed(e)) => {
                if e == Error::Os(self.interrupted) {
                    self.state
                } else {
                    SpawnState::Closing { first: read, second: None, result: Err(e) }
                }
            },
            (SpawnState::Reaping { pid, read, code }, SpawnEvent::Reaped) => {
                SpawnState::Closing {
                    first: read,
                    second: None,
                    result: Err(Error::ExecFailed(code)),
                }
            },
            (SpawnState::Reaping { pid, read, code }, SpawnEvent::Failed(e)) => {
                SpawnState::Closing {
                    first: read,
                    second: None,
                    result: Err(Error::ExecFailed(code)),
                }
            },
            (SpawnState::Closing { first, second, result }, SpawnEvent::Closed) => {
                match second {
                    Some(second) => SpawnState::Closing { first: second, second: None, result },
                    None => SpawnState::Finished(result),
                }
            },
            _ => self.state,
        };
        self.state = state;
        self.pending()
    }

    /// The result of the launch: the handle of the process that runs the
    /// program, or why there is none. `None` while the launch is not over.
    pub fn finish(self) -> (result: Option<Result<Process, Error>>)
        ensures
            match self.state {
                SpawnState::Finished(Ok(pid)) => result matches Some(Ok(process)) && process@ == (
                crate::process::ProcessView { pid, exit_status: None }),
                SpawnState::Finished(Err(e)) => result matches Some(Err(err)) && err == e,
                _ => result is None,
            },
    {
        match self.state {
            SpawnState::Finished(Ok(pid)) => Some(Ok(Process::new(pid))),
            SpawnState::Finished(Err(e)) => Some(Err(e)),
            _ => None,
        }
    }
}

/// What a step does to the descriptors that the launch holds: `after` is
/// `before` with `fd` added.
pub open spec fn gains(before: Seq<int>, fd: int, after: Seq<int>) -> bool {
    exists|i: int| 0 <= i <= before.len() && after == #[trigger] before.insert(i, fd)
}

/// What a step does to the descriptors that the launch holds: `after` is
/// `before` with one `fd` taken out.
pub open spec fn releases(before: Seq<int>, fd: int, after: Seq<int>) -> bool {
    exists|i: int| 0 <= i < before.len() && before[i] == fd && after == #[trigger] before.remove(i)
}

/// A launch keeps account of its descriptors. It begins with none. It gets
/// the two ends of the pipe and the descriptor onto which the write end is
/// moved, and nothing else. It gives up a descriptor only by asking that
/// it be closed. When it is over, it holds none: every descriptor that it
/// got has been closed, whatever came of the launch.
pub proof fn lemma_descriptors_are_accounted_for(
    state: SpawnState,
    event: SpawnEvent<'_>,
    interrupted: i32,
)
    ensures
        held(SpawnState::Start).len() == 0,
        pending(state) is Done ==> held(state).len() == 0,
        ({
            let before = held(state);
            let after = held(spawn_next(state, event, interrupted));
            match (state, event) {
                (SpawnState::Start, SpawnEvent::Piped { read, write }) => after == before + seq![
                    read as int,
                    write as int,
                ],
                (SpawnState::Relocating { read, write }, SpawnEvent::Relocated(fd)) => gains(
                    before,
                    fd as int,
                    after,
                ),
                (_, SpawnEvent::Closed) => match pending(state) {
                    SpawnStep::Close(fd) => releases(before, fd as int, after),
                    _ => after == before,
                },
                _ => after == before,
            }
        }),
{
    let before = held(state);
    let after = held(spawn_next(state, event, interrupted));
    match (state, event) {
        (SpawnState::Start, SpawnEvent::Piped { read, write }) => {
            assert(after =~= before + seq![read as int, write as int]);
        },
        (SpawnState::Relocating { read, write }, SpawnEvent::Relocated(fd)) => {
            assert(after =~= before.insert(1, fd as int));
        },
        (SpawnState::Replacing { read, old, write }, SpawnEvent::Closed) => {
            assert(after =~= before.remove(2));
        },
        (SpawnState::Releasing { pid, read, write }, SpawnEvent::Closed) => {
            assert(after =~= before.remove(1));
        },
        (SpawnState::Closing { first, second, result }, SpawnEvent::Closed) => {
            match second {
                Some(second) => {
                    assert(after =~= before.remove(1));
                },
                None => {
                    assert(after =~= before.remove(0));
                },
            }
        },
        (SpawnState::Relocating { read, write }, SpawnEvent::Failed(e)) => {
            assert(after =~= before);
        },
        (SpawnState::Forking { read, write }, SpawnEvent::Failed(e)) => {
            assert(after =~= before);
        },
        (SpawnState::Forking { read, write }, SpawnEvent::Forked(pid)) => {
            assert(after =~= before);
        },
        (SpawnState::Reading { pid, read, received }, SpawnEvent::Received(data)) => {
            assert(after =~= before);
        },
        (SpawnState::Reading { pid, read, received }, SpawnEvent::Failed(e)) => {
            assert(after =~= before);
        },
        (SpawnState::Reaping { pid, read, code }, _) => {
            assert(after =~= before);
        },
        _ => {},
    }
}

/// The state of a launch after the caller has reported these events, one
/// after the other.
pub open spec fn spawn_run(state: SpawnState, events: Seq<SpawnEvent<'_>>, interrupted: i32) -> SpawnState
    decreases events.len(),
{
    if events.len() == 0 {
        state
    } else {
        spawn_next(spawn_run(state, events.drop_last(), interrupted), events.last(), interrupted)
    }
}

/// The number of descriptors that an event brings to a launch in this
/// state: the two ends of the pipe, or the descriptor onto which the write
/// end was moved.
pub open spec fn opened_by(state: SpawnState, event: SpawnEvent<'_>) -> nat {
    match (state, event) {
        (SpawnState::Start, SpawnEvent::Piped { read, write }) => 2,
        (SpawnState::Relocating { read, write }, SpawnEvent::Relocated(fd)) => 1,
        _ => 0,
    }
}

/// The number of descriptors that an event reports as closed to a launch in
/// this state: one if this is what the launch had asked for.
pub open spec fn closed_by(state: SpawnState, event: SpawnEvent<'_>) -> nat {
    if event is Closed && pending(state) is Close {
        1
    } else {
        0
    }
}

/// The number of descriptors that were opened for a launch in the course
/// of these events.
pub open spec fn opened_in(state: SpawnState, events: Seq<SpawnEvent<'_>>, interrupted: i32) -> nat
    decreases events.len(),
{
    if events.len() == 0 {
        0
    } else {
        opened_in(state, events.drop_last(), interrupted) + opened_by(
            spawn_run(state, events.drop_last(), interrupted),
            events.last(),
        )
    }
}

/// The number of descriptors that were closed for a launch in the course
/// of these events.
pub open spec fn closed_in(state: SpawnState, events: Seq<SpawnEvent<'_>>, interrupted: i32) -> nat
    decreases events.len(),
{
    if events.len() == 0 {
        0
    } else {
        closed_in(state, events.drop_last(), interrupted) + closed_by(
            spawn_run(state, events.drop_last(), interrupted),
            events.last(),
        )
    }
}

/// A launch leaks no descriptor. Whatever the caller reports, and in
/// whatever order, the descriptors that were opened for the launch are those
/// that were closed and those that it still holds. A launch that is over
/// holds none, so that as many descriptors were closed as were opened: the
/// parent has as many open descriptors after the launch as it had before,
/// whether the launch has given a handle or an error.
pub proof fn lemma_launch_leaks_nothing(events: Seq<SpawnEvent<'_>>, interrupted: i32)
    ensures
        opened_in(SpawnState::Start, events, interrupted) == closed_in(
            SpawnState::Start,
            events,
            interrupted,
        ) + held(spawn_run(SpawnState::Start, events, interrupted)).len(),
        pending(spawn_run(SpawnState::Start, events, interrupted)) is Done ==> opened_in(
            SpawnState::Start,
            events,
            interrupted,
        ) == closed_in(SpawnState::Start, events, interrupted),
    decreases events.len(),
{
    if events.len() > 0 {
        lemma_launch_leaks_nothing(events.drop_last(), interrupted);
        let before = spawn_run(SpawnState::Start, events.drop_last(), interrupted);
        lemma_descriptors_are_accounted_for(before, events.last(), interrupted);
    }
}

/// A launch whose child has reported a failure yields this failure and
/// never a handle. As soon as a whole message has come from the error
/// channel the outcome is decided; it is the error code that the message
/// carries. An outcome that is decided does not change any more, whatever
/// the caller reports.
pub proof fn lemma_failure_is_final(state: SpawnState, event: SpawnEvent<'_>, interrupted: i32)
    ensures
        decided(state) is Some ==> decided(spawn_next(state, event, interrupted)) == decided(state),
        match state {
            SpawnState::Finished(result) => decided(state) == Some(result),
            _ => true,
        },
        match (state, event) {
            (SpawnState::Reading { pid, read, received }, SpawnEvent::Received(data)) => {
                let missing = MESSAGE_LEN - received.bytes().len();
                data@.len() >= missing ==> decided(spawn_next(state, event, interrupted)) == Some(
                    Err::<i32, Error>(
                        Error::ExecFailed(
                            message_code(endianness(), received.bytes() + data@.take(missing)),
                        ),
                    ),
                )
            },
            _ => true,
        },
{
}

/// Once the outcome of a launch is decided it is the outcome of the launch:
/// nothing that the caller reports afterwards, however much, changes it. So
/// a launch whose child has reported a failure ends with this failure, and
/// with no handle.
pub proof fn lemma_decided_outcome_stays(
    state: SpawnState,
    events: Seq<SpawnEvent<'_>>,
    interrupted: i32,
)
    requires
        decided(state) is Some,
    ensures
        decided(spawn_run(state, events, interrupted)) == decided(state),
        match spawn_run(state, events, interrupted) {
            SpawnState::Finished(result) => Some(result) == decided(state),
            _ => true,
        },
    decreases events.len(),
{
    if events.len() > 0 {
        lemma_decided_outcome_stays(state, events.drop_last(), interrupted);
        lemma_failure_is_final(
            spawn_run(state, events.drop_last(), interrupted),
            events.last(),
            interrupted,
        );
    }
}

} // verus!
