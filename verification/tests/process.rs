use dbus_launch::process::{
    teardown_step, Process, Signal, TeardownStep, TimedPhase, TimedStep, Timeout, Wait,
    GRACE_PERIOD, POLL_INTERVAL,
};
use dbus_launch::Error;

#[test]
fn new_process_has_no_status() {
    let p = Process::new(42);
    assert_eq!(42, p.pid());
    assert_eq!(None, p.exit_status());
}

#[test]
fn kill_sends_the_signal_to_a_live_process() {
    let p = Process::new(42);
    assert_eq!(Some((42, Signal::Terminate)), p.kill(Signal::Terminate));
    assert_eq!(Some((42, Signal::Kill)), p.kill(Signal::Kill));
}

#[test]
fn kill_is_a_no_op_after_exit() {
    let mut p = Process::new(42);
    assert_eq!(Ok(Some(0)), p.reaped(42, 0, 0));
    assert_eq!(None, p.kill(Signal::Terminate));
    assert_eq!(None, p.kill(Signal::Kill));
}

#[test]
fn wait_blocks_and_try_wait_does_not() {
    let p = Process::new(7);
    assert_eq!(Wait::Ask { pid: 7, block: true }, p.wait());
    assert_eq!(Wait::Ask { pid: 7, block: false }, p.try_wait());
}

#[test]
fn reaped_remembers_the_status() {
    let mut p = Process::new(7);
    assert_eq!(Ok(Some(256)), p.reaped(7, 256, 0));
    assert_eq!(Some(256), p.exit_status());
    assert_eq!(7, p.pid());
}

#[test]
fn reaped_reports_a_failure() {
    let mut p = Process::new(7);
    assert_eq!(Err(Error::Os(libc::ECHILD)), p.reaped(-1, 0, libc::ECHILD));
    assert_eq!(None, p.exit_status());
}

#[test]
fn reaped_reports_a_running_process() {
    let mut p = Process::new(7);
    assert_eq!(Ok(None), p.reaped(0, 0, 0));
    assert_eq!(None, p.exit_status());
    assert_eq!(Wait::Ask { pid: 7, block: false }, p.try_wait());
}

#[test]
fn wait_twice_gives_the_same_status_without_asking() {
    let mut p = Process::new(7);
    assert_eq!(Wait::Ask { pid: 7, block: true }, p.wait());
    assert_eq!(Ok(Some(9)), p.reaped(7, 9, 0));
    assert_eq!(Wait::Exited(9), p.wait());
    assert_eq!(Wait::Exited(9), p.wait());
    assert_eq!(Wait::Exited(9), p.try_wait());
}

#[test]
fn status_is_set_once_and_never_replaced() {
    let mut p = Process::new(7);
    assert_eq!(Ok(Some(9)), p.reaped(7, 9, 0));
    assert_eq!(Ok(Some(9)), p.reaped(7, 15, 0));
    assert_eq!(Ok(Some(9)), p.reaped(-1, 0, libc::ECHILD));
    assert_eq!(Ok(Some(9)), p.reaped(0, 0, 0));
    assert_eq!(Some(9), p.exit_status());
}

#[test]
fn timed_wait_starts_with_a_poll() {
    let mut w = Process::new(7).try_wait_timeout(Timeout { secs: 10, nanos: 0 });
    assert_eq!(TimedPhase::Start, w.phase);
    assert_eq!(TimedStep::Poll, w.step(Ok(None)));
}

#[test]
fn timed_wait_of_exited_process_ends_at_once() {
    for secs in [0, 1, 10, u64::MAX] {
        let mut p = Process::new(7);
        assert_eq!(Ok(Some(3)), p.reaped(7, 3, 0));
        let mut w = p.try_wait_timeout(Timeout { secs, nanos: 999_999_999 });
        assert_eq!(TimedStep::Done(Ok(Some(3))), w.step(Ok(None)));
        assert_eq!(TimedStep::Done(Ok(Some(3))), w.step(Err(Error::Os(1))));
        // A poll would need no system call either.
        assert_eq!(Wait::Exited(3), p.try_wait());
    }
}

#[test]
fn timed_wait_polls_every_second() {
    let mut w = Process::new(7).try_wait_timeout(Timeout { secs: 2, nanos: 500 });
    assert_eq!(1, POLL_INTERVAL);
    assert_eq!(TimedStep::Poll, w.step(Ok(None)));
    assert_eq!(TimedStep::Sleep(Timeout { secs: 1, nanos: 0 }), w.step(Ok(None)));
    assert_eq!(Timeout { secs: 1, nanos: 500 }, w.left);
    assert_eq!(TimedStep::Poll, w.step(Ok(None)));
    assert_eq!(TimedStep::Sleep(Timeout { secs: 1, nanos: 0 }), w.step(Ok(None)));
    assert_eq!(Timeout { secs: 0, nanos: 500 }, w.left);
    assert_eq!(TimedStep::Poll, w.step(Ok(None)));
    // Less than an interval is left: it is slept, and one poll follows.
    assert_eq!(TimedStep::Sleep(Timeout { secs: 0, nanos: 500 }), w.step(Ok(None)));
    assert_eq!(TimedStep::Poll, w.step(Ok(None)));
    assert_eq!(TimedStep::Done(Ok(None)), w.step(Ok(None)));
    assert_eq!(TimedStep::Done(Ok(None)), w.step(Ok(Some(1))));
}

#[test]
fn timed_wait_of_no_time_polls_twice() {
    let mut w = Process::new(7).try_wait_timeout(Timeout { secs: 0, nanos: 0 });
    assert_eq!(TimedStep::Poll, w.step(Ok(None)));
    assert_eq!(TimedStep::Sleep(Timeout { secs: 0, nanos: 0 }), w.step(Ok(None)));
    assert_eq!(TimedStep::Poll, w.step(Ok(None)));
    assert_eq!(TimedStep::Done(Ok(None)), w.step(Ok(None)));
}

#[test]
fn timed_wait_ends_when_the_process_exits() {
    let mut w = Process::new(7).try_wait_timeout(Timeout { secs: 5, nanos: 0 });
    assert_eq!(TimedStep::Poll, w.step(Ok(None)));
    assert_eq!(TimedStep::Sleep(Timeout { secs: 1, nanos: 0 }), w.step(Ok(None)));
    assert_eq!(TimedStep::Poll, w.step(Ok(None)));
    assert_eq!(TimedStep::Done(Ok(Some(15))), w.step(Ok(Some(15))));
}

#[test]
fn timed_wait_ends_when_a_poll_fails() {
    let mut w = Process::new(7).try_wait_timeout(Timeout { secs: 5, nanos: 0 });
    assert_eq!(TimedStep::Poll, w.step(Ok(None)));
    assert_eq!(TimedStep::Done(Err(Error::Os(libc::ECHILD))), w.step(Err(Error::Os(libc::ECHILD))));
    assert_eq!(TimedStep::Done(Err(Error::Os(libc::ECHILD))), w.step(Ok(None)));
}

#[test]
fn teardown_terminates_waits_kills_and_reaps() {
    assert_eq!(10, GRACE_PERIOD);
    assert_eq!(Some(TeardownStep::Kill(Signal::Terminate)), teardown_step(0));
    assert_eq!(
        Some(TeardownStep::WaitTimeout(Timeout { secs: 10, nanos: 0 })),
        teardown_step(1)
    );
    assert_eq!(Some(TeardownStep::Kill(Signal::Kill)), teardown_step(2));
    assert_eq!(Some(TeardownStep::Wait), teardown_step(3));
    assert_eq!(None, teardown_step(4));
    assert_eq!(None, teardown_step(usize::MAX));
}
