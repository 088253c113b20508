use dbus_launch::channel::encode;
use dbus_launch::pipe::{Pipe, PipeEvent, PipeState, PipeStep, Transfer};
use dbus_launch::spawn::{Partial, Spawn, SpawnEvent, SpawnState, SpawnStep};
use dbus_launch::sys::Platform;
use dbus_launch::Error;

const EINTR: i32 = libc::EINTR;

fn platform() -> Platform {
    Platform::native()
}

/// Takes a launch up to the point where the parent reads the error channel.
fn parent_reading(read: i32, write: i32, pid: i32) -> Spawn {
    let mut spawn = Spawn::new(&platform());
    assert_eq!(SpawnStep::Pipe, spawn.pending());
    assert_eq!(SpawnStep::Fork, spawn.step(SpawnEvent::Piped { read, write }));
    assert_eq!(SpawnStep::Close(write), spawn.step(SpawnEvent::Forked(pid)));
    assert_eq!(SpawnStep::Read { fd: read, len: 4 }, spawn.step(SpawnEvent::Closed));
    spawn
}

#[test]
fn launch_of_a_program_that_runs_gives_a_handle() {
    let mut spawn = parent_reading(5, 6, 1234);
    assert_eq!(SpawnStep::Close(5), spawn.step(SpawnEvent::Received(&[])));
    assert_eq!(SpawnStep::Done, spawn.step(SpawnEvent::Closed));
    let process = spawn.finish().unwrap().unwrap();
    assert_eq!(1234, process.pid());
    assert_eq!(None, process.exit_status());
}

#[test]
fn launch_of_a_missing_program_gives_not_found_and_no_handle() {
    let mut spawn = parent_reading(5, 6, 1234);
    let message = encode(libc::ENOENT);
    assert_eq!(SpawnStep::Reap { pid: 1234 }, spawn.step(SpawnEvent::Received(&message)));
    assert_eq!(SpawnStep::Close(5), spawn.step(SpawnEvent::Reaped));
    assert_eq!(SpawnStep::Done, spawn.step(SpawnEvent::Closed));
    let error = spawn.finish().unwrap().unwrap_err();
    assert_eq!(Error::ExecFailed(libc::ENOENT), error);
    let code = error.raw_os_error().unwrap();
    assert_eq!(
        std::io::ErrorKind::NotFound,
        std::io::Error::from_raw_os_error(code).kind()
    );
}

#[test]
fn launch_reports_the_failure_even_if_the_child_cannot_be_reaped() {
    let mut spawn = parent_reading(5, 6, 1234);
    let message = encode(libc::EACCES);
    assert_eq!(SpawnStep::Reap { pid: 1234 }, spawn.step(SpawnEvent::Received(&message)));
    assert_eq!(SpawnStep::Close(5), spawn.step(SpawnEvent::Failed(Error::Os(libc::ECHILD))));
    assert_eq!(SpawnStep::Done, spawn.step(SpawnEvent::Closed));
    assert_eq!(Error::ExecFailed(libc::EACCES), spawn.finish().unwrap().unwrap_err());
}

#[test]
fn message_may_come_in_pieces() {
    let mut spawn = parent_reading(5, 6, 1234);
    let message = encode(libc::ENOENT);
    assert_eq!(SpawnStep::Read { fd: 5, len: 3 }, spawn.step(SpawnEvent::Received(&message[..1])));
    assert_eq!(SpawnStep::Read { fd: 5, len: 1 }, spawn.step(SpawnEvent::Received(&message[1..3])));
    assert_eq!(
        SpawnState::Reading {
            pid: 1234,
            read: 5,
            received: Partial { len: 3, first: message[0], second: message[1], third: message[2] }
        },
        spawn.state
    );
    assert_eq!(SpawnStep::Reap { pid: 1234 }, spawn.step(SpawnEvent::Received(&message[3..])));
    assert_eq!(SpawnState::Reaping { pid: 1234, read: 5, code: libc::ENOENT }, spawn.state);
}

#[test]
fn bytes_behind_a_message_are_not_looked_at() {
    let mut spawn = parent_reading(5, 6, 1234);
    let message = encode(libc::ENOENT);
    let long = [message[0], message[1], message[2], message[3], 7, 7];
    assert_eq!(SpawnStep::Reap { pid: 1234 }, spawn.step(SpawnEvent::Received(&long)));
    assert_eq!(SpawnState::Reaping { pid: 1234, read: 5, code: libc::ENOENT }, spawn.state);
}

#[test]
fn part_of_a_message_is_a_protocol_violation() {
    for len in 1..4 {
        let mut spawn = parent_reading(5, 6, 1234);
        let message = encode(libc::ENOENT);
        assert_eq!(
            SpawnStep::Read { fd: 5, len: 4 - len },
            spawn.step(SpawnEvent::Received(&message[..len]))
        );
        assert_eq!(SpawnStep::Close(5), spawn.step(SpawnEvent::Received(&[])));
        assert_eq!(SpawnStep::Done, spawn.step(SpawnEvent::Closed));
        assert_eq!(Error::ProtocolViolation, spawn.finish().unwrap().unwrap_err());
    }
}

#[test]
fn interrupted_read_is_asked_for_again() {
    let mut spawn = parent_reading(5, 6, 1234);
    assert_eq!(SpawnStep::Read { fd: 5, len: 4 }, spawn.step(SpawnEvent::Failed(Error::Os(EINTR))));
    assert_eq!(SpawnStep::Close(5), spawn.step(SpawnEvent::Received(&[])));
}

#[test]
fn failed_read_ends_the_launch() {
    let mut spawn = parent_reading(5, 6, 1234);
    assert_eq!(SpawnStep::Close(5), spawn.step(SpawnEvent::Failed(Error::Os(libc::EIO))));
    assert_eq!(SpawnStep::Done, spawn.step(SpawnEvent::Closed));
    assert_eq!(Error::Os(libc::EIO), spawn.finish().unwrap().unwrap_err());
}

#[test]
fn write_end_in_the_slot_is_moved_out_of_the_way() {
    for write in [0, 1, 2, 3] {
        let mut spawn = Spawn::new(&platform());
        assert_eq!(
            SpawnStep::Relocate { fd: write, min: 4 },
            spawn.step(SpawnEvent::Piped { read: 9, write })
        );
        assert_eq!(SpawnStep::Close(write), spawn.step(SpawnEvent::Relocated(4)));
        assert_eq!(SpawnStep::Fork, spawn.step(SpawnEvent::Closed));
        assert_eq!(SpawnState::Forking { read: 9, write: 4 }, spawn.state);
    }
}

#[test]
fn write_end_above_the_slot_stays() {
    let mut spawn = Spawn::new(&platform());
    assert_eq!(SpawnStep::Fork, spawn.step(SpawnEvent::Piped { read: 3, write: 4 }));
}

#[test]
fn failure_to_create_the_pipe_ends_the_launch() {
    let mut spawn = Spawn::new(&platform());
    assert_eq!(SpawnStep::Done, spawn.step(SpawnEvent::Failed(Error::Os(libc::EMFILE))));
    assert_eq!(Error::Os(libc::EMFILE), spawn.finish().unwrap().unwrap_err());
}

#[test]
fn failure_to_move_the_write_end_closes_the_pipe() {
    let mut spawn = Spawn::new(&platform());
    assert_eq!(
        SpawnStep::Relocate { fd: 3, min: 4 },
        spawn.step(SpawnEvent::Piped { read: 0, write: 3 })
    );
    assert_eq!(SpawnStep::Close(3), spawn.step(SpawnEvent::Failed(Error::Os(libc::EMFILE))));
    assert_eq!(SpawnStep::Close(0), spawn.step(SpawnEvent::Closed));
    assert_eq!(SpawnStep::Done, spawn.step(SpawnEvent::Closed));
    assert_eq!(Error::Os(libc::EMFILE), spawn.finish().unwrap().unwrap_err());
}

#[test]
fn failure_to_fork_closes_the_pipe() {
    let mut spawn = Spawn::new(&platform());
    assert_eq!(SpawnStep::Fork, spawn.step(SpawnEvent::Piped { read: 5, write: 6 }));
    assert_eq!(SpawnStep::Close(6), spawn.step(SpawnEvent::Failed(Error::Os(libc::EAGAIN))));
    assert_eq!(SpawnStep::Close(5), spawn.step(SpawnEvent::Closed));
    assert_eq!(SpawnStep::Done, spawn.step(SpawnEvent::Closed));
    assert_eq!(Error::Os(libc::EAGAIN), spawn.finish().unwrap().unwrap_err());
}

#[test]
fn child_is_given_the_error_channel() {
    let mut spawn = Spawn::new(&platform());
    assert_eq!(SpawnStep::Fork, spawn.step(SpawnEvent::Piped { read: 5, write: 6 }));
    assert_eq!(SpawnStep::Child { error_channel: 6 }, spawn.step(SpawnEvent::Forked(0)));
    assert_eq!(SpawnStep::Child { error_channel: 6 }, spawn.step(SpawnEvent::Closed));
    assert!(spawn.finish().is_none());
}

#[test]
fn event_that_answers_nothing_changes_nothing() {
    let mut spawn = Spawn::new(&platform());
    assert_eq!(SpawnStep::Pipe, spawn.step(SpawnEvent::Closed));
    assert_eq!(SpawnStep::Pipe, spawn.step(SpawnEvent::Forked(1)));
    assert_eq!(SpawnStep::Pipe, spawn.step(SpawnEvent::Received(&[1, 2, 3, 4])));
    assert_eq!(SpawnState::Start, spawn.state);
    assert_eq!(SpawnStep::Fork, spawn.step(SpawnEvent::Piped { read: 5, write: 6 }));
    assert_eq!(SpawnStep::Fork, spawn.step(SpawnEvent::Piped { read: 7, write: 8 }));
    assert_eq!(SpawnState::Forking { read: 5, write: 6 }, spawn.state);
}

#[test]
fn launch_is_not_over_before_it_is_done() {
    assert!(Spawn::new(&platform()).finish().is_none());
    assert!(parent_reading(5, 6, 1).finish().is_none());
}

/// Runs a launch to its end and counts the descriptors that it was given
/// and that it asked to be closed.
fn balance(write: i32, events: &[SpawnEvent]) -> (Vec<i32>, Vec<i32>) {
    let mut spawn = Spawn::new(&platform());
    let mut opened = Vec::new();
    let mut closed = Vec::new();
    let mut step = spawn.pending();
    let mut events = events.iter();
    loop {
        let event = match step {
            SpawnStep::Pipe => {
                opened.push(10);
                opened.push(write);
                SpawnEvent::Piped { read: 10, write }
            }
            SpawnStep::Close(fd) => {
                closed.push(fd);
                SpawnEvent::Closed
            }
            SpawnStep::Done => {
                opened.sort();
                closed.sort();
                return (opened, closed);
            }
            _ => {
                let event = *events.next().unwrap();
                if let SpawnEvent::Relocated(fd) = event {
                    opened.push(fd);
                }
                event
            }
        };
        step = spawn.step(event);
    }
}

#[test]
fn every_descriptor_of_a_launch_is_closed() {
    let message = encode(libc::ENOENT);
    let failure = Error::Os(libc::EAGAIN);
    let runs: Vec<(i32, Vec<SpawnEvent>)> = vec![
        (11, vec![SpawnEvent::Forked(77), SpawnEvent::Received(&[])]),
        (11, vec![SpawnEvent::Forked(77), SpawnEvent::Received(&message), SpawnEvent::Reaped]),
        (11, vec![SpawnEvent::Forked(77), SpawnEvent::Received(&message[..2]), SpawnEvent::Received(&[])]),
        (11, vec![SpawnEvent::Forked(77), SpawnEvent::Failed(failure)]),
        (11, vec![SpawnEvent::Failed(failure)]),
        (3, vec![SpawnEvent::Relocated(12), SpawnEvent::Forked(77), SpawnEvent::Received(&[])]),
        (3, vec![SpawnEvent::Relocated(12), SpawnEvent::Failed(failure)]),
        (3, vec![SpawnEvent::Failed(failure)]),
    ];
    for (write, events) in runs {
        let (opened, closed) = balance(write, &events);
        assert_eq!(opened, closed);
    }
}

#[test]
fn launches_side_by_side_give_a_handle_each_and_leak_nothing() {
    let n = 20;
    let mut launches: Vec<Spawn> = (0..n).map(|_| Spawn::new(&platform())).collect();
    let mut open: Vec<i32> = Vec::new();
    let mut next_fd = 4;
    let mut done = 0;
    // One step of each launch in turn, as if the launches ran in threads.
    while done < n {
        done = 0;
        for (i, spawn) in launches.iter_mut().enumerate() {
            let event = match spawn.pending() {
                SpawnStep::Pipe => {
                    open.push(next_fd);
                    open.push(next_fd + 1);
                    next_fd += 2;
                    SpawnEvent::Piped { read: next_fd - 2, write: next_fd - 1 }
                }
                SpawnStep::Fork => SpawnEvent::Forked(1000 + i as i32),
                SpawnStep::Close(fd) => {
                    let at = open.iter().position(|open| *open == fd).unwrap();
                    open.remove(at);
                    SpawnEvent::Closed
                }
                SpawnStep::Read { .. } => SpawnEvent::Received(&[]),
                SpawnStep::Done => {
                    done += 1;
                    continue;
                }
                step => panic!("{:?}", step),
            };
            spawn.step(event);
        }
    }
    assert!(open.is_empty());
    let mut pids: Vec<i32> =
        launches.into_iter().map(|spawn| spawn.finish().unwrap().unwrap().pid()).collect();
    pids.dedup();
    assert_eq!(n, pids.len());
}

#[test]
fn pipe_end_holds_its_descriptor() {
    let pipe = Pipe::from_fd(5);
    assert_eq!(5, pipe.as_raw_fd());
    assert_eq!(Transfer::Read { fd: 5, len: 4 }, pipe.read(4));
    assert_eq!(Transfer::Write { fd: 5, len: 0 }, pipe.write(0));
    assert_eq!(Ok(()), pipe.flush());
    assert_eq!(5, pipe.into_raw_fd());
}

#[test]
fn transfer_gives_the_number_of_bytes() {
    assert_eq!(Ok(0), Pipe::transferred(0, 5));
    assert_eq!(Ok(4), Pipe::transferred(4, 5));
    assert_eq!(Ok(isize::MAX as usize), Pipe::transferred(isize::MAX, 5));
}

#[test]
fn transfer_gives_the_error_code() {
    assert_eq!(Err(Error::Os(5)), Pipe::transferred(-1, 5));
    assert_eq!(Err(Error::Os(libc::EPIPE)), Pipe::transferred(-1, libc::EPIPE));
}

#[test]
fn pipe_that_is_created_with_the_flag_is_ready() {
    let mut creation = Pipe::new(true);
    assert_eq!(PipeStep::Create { close_on_exec: true }, creation.pending());
    assert_eq!(PipeStep::Done, creation.step(PipeEvent::Created { read: 5, write: 6 }));
    let (read, write) = creation.finish().unwrap().unwrap();
    assert_eq!(5, read.as_raw_fd());
    assert_eq!(6, write.as_raw_fd());
}

#[test]
fn pipe_that_is_created_without_the_flag_is_marked() {
    let mut creation = Pipe::new(false);
    assert_eq!(PipeStep::Create { close_on_exec: false }, creation.pending());
    assert_eq!(PipeStep::Mark(5), creation.step(PipeEvent::Created { read: 5, write: 6 }));
    assert_eq!(PipeStep::Mark(6), creation.step(PipeEvent::Marked));
    assert_eq!(PipeStep::Done, creation.step(PipeEvent::Marked));
    let (read, write) = creation.finish().unwrap().unwrap();
    assert_eq!(5, read.as_raw_fd());
    assert_eq!(6, write.as_raw_fd());
}

#[test]
fn pipe_that_cannot_be_marked_is_closed() {
    for marked in [0, 1] {
        let mut creation = Pipe::new(false);
        assert_eq!(PipeStep::Mark(5), creation.step(PipeEvent::Created { read: 5, write: 6 }));
        for _ in 0..marked {
            assert_eq!(PipeStep::Mark(6), creation.step(PipeEvent::Marked));
        }
        assert_eq!(PipeStep::Close(6), creation.step(PipeEvent::Failed(Error::Os(9))));
        assert_eq!(PipeStep::Close(5), creation.step(PipeEvent::Closed));
        assert_eq!(PipeStep::Done, creation.step(PipeEvent::Closed));
        assert_eq!(Error::Os(9), creation.finish().unwrap().unwrap_err());
    }
}

#[test]
fn pipe_that_cannot_be_created_is_an_error() {
    let mut creation = Pipe::new(true);
    assert_eq!(PipeStep::Done, creation.step(PipeEvent::Failed(Error::Os(libc::EMFILE))));
    assert_eq!(PipeState::Finished(Err(Error::Os(libc::EMFILE))), creation.state);
    assert_eq!(Error::Os(libc::EMFILE), creation.finish().unwrap().unwrap_err());
}

#[test]
fn pipe_creation_is_not_over_before_it_is_done() {
    assert!(Pipe::new(true).finish().is_none());
    let mut creation = Pipe::new(false);
    creation.step(PipeEvent::Created { read: 5, write: 6 });
    assert_eq!(PipeStep::Mark(5), creation.step(PipeEvent::Closed));
    assert!(creation.finish().is_none());
}
