use dbus_launch::sys::{
    fd_limit, set_close_on_exec, Platform, Scan, ScanStep, Strategy, BATCH, HAND_OFF_SLOT,
};
use dbus_launch::Error;
use std::collections::BTreeMap;

fn platform() -> Platform {
    Platform {
        close_on_exec: 1,
        invalid: 0x20,
        bad_descriptor: 9,
        invalid_argument: 22,
        interrupted: 4,
    }
}

/// What a scan did, as its caller saw it.
struct Run {
    probes: Vec<(i32, usize)>,
    marks: Vec<i32>,
    result: Result<(), Error>,
}

/// Runs a scan over descriptors of which `open` are open. Marking the
/// descriptors in `failing` fails with the error given for them.
fn run(min: i32, limit: Result<i32, Error>, open: &[i32], failing: &[(i32, Error)]) -> Run {
    run_with(Strategy::Batched, min, limit, open, failing)
}

fn run_with(
    strategy: Strategy,
    min: i32,
    limit: Result<i32, Error>,
    open: &[i32],
    failing: &[(i32, Error)],
) -> Run {
    let mut scan = Scan::new(min, platform(), strategy);
    let mut revents = [0i16; 512];
    let mut outcome: Result<i32, Error> = Ok(0);
    let mut run = Run { probes: Vec::new(), marks: Vec::new(), result: Ok(()) };
    loop {
        match scan.step(outcome, &revents) {
            ScanStep::Limit => outcome = limit,
            ScanStep::Probe { first, count } => {
                run.probes.push((first, count));
                for k in 0..count {
                    let fd = first + k as i32;
                    revents[k] = if open.contains(&fd) { 0x11 } else { 0x20 };
                }
                outcome = Ok(0);
            }
            ScanStep::Mark(fd) => {
                run.marks.push(fd);
                outcome = match failing.iter().find(|f| f.0 == fd) {
                    Some(f) => Err(f.1),
                    None => Ok(0),
                };
            }
            ScanStep::Done(result) => {
                run.result = result;
                return run;
            }
        }
    }
}

#[test]
fn native_platform_has_the_values_of_libc() {
    let p = Platform::native();
    assert_eq!(libc::FD_CLOEXEC, p.close_on_exec);
    assert_eq!(libc::POLLNVAL, p.invalid);
    assert_eq!(libc::EBADF, p.bad_descriptor);
    assert_eq!(libc::EINVAL, p.invalid_argument);
    assert_eq!(libc::EINTR, p.interrupted);
}

#[test]
fn native_platform_has_values_that_some_platform_has() {
    let p = Platform::native();
    assert!([1, 0x0100_0000].contains(&p.close_on_exec));
    assert!([0x20, 0x1000, 0x4000, -0x8000].contains(&p.invalid));
    assert!([9, 8, 24, 1073741833, -2147459072].contains(&p.bad_descriptor));
    assert!([22, 28, 14, 1073741846, -2147483643].contains(&p.invalid_argument));
    assert!([4, 27, 17, 1073741828, -2147483638].contains(&p.interrupted));
}

#[test]
fn hand_off_slot_follows_the_standard_streams() {
    assert_eq!(3, HAND_OFF_SLOT);
    assert_eq!(512, BATCH);
}

#[test]
fn set_close_on_exec_sets_the_flag() {
    assert_eq!(Some(1), set_close_on_exec(0, true, &platform()));
    assert_eq!(Some(7), set_close_on_exec(6, true, &platform()));
}

#[test]
fn set_close_on_exec_clears_the_flag() {
    assert_eq!(Some(0), set_close_on_exec(1, false, &platform()));
    assert_eq!(Some(6), set_close_on_exec(7, false, &platform()));
}

#[test]
fn set_close_on_exec_leaves_alone_what_is_right() {
    assert_eq!(None, set_close_on_exec(1, true, &platform()));
    assert_eq!(None, set_close_on_exec(7, true, &platform()));
    assert_eq!(None, set_close_on_exec(0, false, &platform()));
    assert_eq!(None, set_close_on_exec(6, false, &platform()));
}

#[test]
fn set_close_on_exec_goes_by_the_platform() {
    let mut p = platform();
    p.close_on_exec = 0x0100_0000;
    assert_eq!(Some(0x0100_0001), set_close_on_exec(1, true, &p));
    assert_eq!(Some(1), set_close_on_exec(0x0100_0001, false, &p));
    assert_eq!(None, set_close_on_exec(1, false, &p));
}

#[test]
fn fd_limit_is_the_soft_limit() {
    assert_eq!(1024, fd_limit(1024));
    assert_eq!(0, fd_limit(0));
    assert_eq!(i32::MAX, fd_limit(i32::MAX as u64));
}

#[test]
fn fd_limit_is_cut_to_the_width_of_a_descriptor() {
    assert_eq!(-1, fd_limit(u64::MAX));
    assert_eq!(i32::MIN, fd_limit(1 << 31));
    assert_eq!(5, fd_limit((1 << 32) + 5));
}

#[test]
fn scan_asks_for_the_limit_first() {
    let mut scan = Scan::new(3, platform(), Strategy::Batched);
    assert_eq!(ScanStep::Limit, scan.step(Ok(0), &[0; 512]));
}

#[test]
fn scan_marks_every_open_descriptor() {
    let run = run(3, Ok(20), &[0, 1, 2, 3, 5, 7, 19, 20, 25], &[]);
    assert_eq!(Ok(()), run.result);
    assert_eq!(vec![(3, 17)], run.probes);
    assert_eq!(vec![3, 5, 7, 19], run.marks);
}

#[test]
fn scan_probes_in_batches() {
    let open: Vec<i32> = vec![3, 514, 515, 1026, 1027, 1999];
    let run = run(3, Ok(2000), &open, &[]);
    assert_eq!(Ok(()), run.result);
    assert_eq!(vec![(3, 512), (515, 512), (1027, 512), (1539, 461)], run.probes);
    assert_eq!(open, run.marks);
}

#[test]
fn scan_needs_one_probe_for_each_batch() {
    for (min, limit, probes) in
        [(3, 3, 0), (3, 4, 1), (3, 515, 1), (3, 516, 2), (0, 1024, 2), (0, 1025, 3), (3, 65536, 128)]
    {
        let run = run(min, Ok(limit), &[], &[]);
        assert_eq!(Ok(()), run.result);
        assert_eq!(probes, run.probes.len());
        assert!(run.marks.is_empty());
    }
}

#[test]
fn scan_of_nothing_is_over_at_once() {
    for limit in [3, 2, 0, -1] {
        let run = run(3, Ok(limit), &[3, 4], &[]);
        assert_eq!(Ok(()), run.result);
        assert!(run.probes.is_empty());
        assert!(run.marks.is_empty());
    }
}

#[test]
fn scan_marks_a_whole_batch() {
    let open: Vec<i32> = (3..515).collect();
    let run = run(3, Ok(515), &open, &[]);
    assert_eq!(Ok(()), run.result);
    assert_eq!(vec![(3, 512)], run.probes);
    assert_eq!(open, run.marks);
}

#[test]
fn scan_passes_over_a_descriptor_that_was_closed_meanwhile() {
    let run = run(3, Ok(10), &[4, 6, 8], &[(6, Error::Os(9))]);
    assert_eq!(Ok(()), run.result);
    assert_eq!(vec![4, 6, 8], run.marks);
}

#[test]
fn scan_ends_at_any_other_failure_to_mark() {
    let run = run(3, Ok(10), &[4, 6, 8], &[(6, Error::Os(22))]);
    assert_eq!(Err(Error::Os(22)), run.result);
    assert_eq!(vec![4, 6], run.marks);
}

#[test]
fn scan_ends_when_the_limit_is_unknown() {
    let run = run(3, Err(Error::Os(1)), &[4], &[]);
    assert_eq!(Err(Error::Os(1)), run.result);
    assert!(run.probes.is_empty());
}

#[test]
fn scan_ends_when_a_probe_fails() {
    let mut scan = Scan::new(3, platform(), Strategy::Batched);
    let revents = [0i16; 512];
    assert_eq!(ScanStep::Limit, scan.step(Ok(0), &revents));
    assert_eq!(ScanStep::Probe { first: 3, count: 7 }, scan.step(Ok(10), &revents));
    assert_eq!(ScanStep::Done(Err(Error::Os(12))), scan.step(Err(Error::Os(12)), &revents));
    assert_eq!(ScanStep::Done(Err(Error::Os(12))), scan.step(Ok(0), &revents));
}

#[test]
fn scan_stays_over() {
    let mut scan = Scan::new(3, platform(), Strategy::Batched);
    let revents = [0x20i16; 512];
    assert_eq!(ScanStep::Limit, scan.step(Ok(0), &revents));
    assert_eq!(ScanStep::Probe { first: 3, count: 1 }, scan.step(Ok(4), &revents));
    assert_eq!(ScanStep::Done(Ok(())), scan.step(Ok(0), &revents));
    assert_eq!(ScanStep::Done(Ok(())), scan.step(Err(Error::Os(1)), &revents));
}

#[test]
fn linear_scan_tries_every_descriptor_and_probes_none() {
    let closed: Vec<(i32, Error)> =
        (3..1030).filter(|fd| fd % 7 != 0).map(|fd| (fd, Error::Os(9))).collect();
    let run = run_with(Strategy::Linear, 3, Ok(1030), &[], &closed);
    assert_eq!(Ok(()), run.result);
    assert!(run.probes.is_empty());
    assert_eq!((3..1030).collect::<Vec<i32>>(), run.marks);
}

#[test]
fn linear_scan_ends_at_a_failure_other_than_a_closed_descriptor() {
    let run = run_with(Strategy::Linear, 3, Ok(10), &[], &[(4, Error::Os(9)), (5, Error::Os(1))]);
    assert_eq!(Err(Error::Os(1)), run.result);
    assert_eq!(vec![3, 4, 5], run.marks);
}

#[test]
fn linear_scan_of_nothing_is_over_at_once() {
    let run = run_with(Strategy::Linear, 3, Ok(3), &[], &[]);
    assert_eq!(Ok(()), run.result);
    assert!(run.marks.is_empty());
}

/// A table of descriptors: each open descriptor with its close-on-exec flag.
fn table(open: &[(i32, bool)]) -> BTreeMap<i32, bool> {
    open.iter().cloned().collect()
}

/// Marks what a scan of the table asks to be marked.
fn hygiene(descriptors: &mut BTreeMap<i32, bool>, min: i32, limit: i32) {
    let open: Vec<i32> = descriptors.keys().cloned().collect();
    let run = run(min, Ok(limit), &open, &[]);
    assert_eq!(Ok(()), run.result);
    for fd in run.marks {
        let flags = if descriptors[&fd] { 1 } else { 0 };
        if let Some(new) = set_close_on_exec(flags, true, &platform()) {
            descriptors.insert(fd, new & 1 == 1);
        }
    }
}

#[test]
fn child_with_hygiene_keeps_only_the_standard_streams_and_the_slot() {
    // Two pipes that were open in the parent without the flag, the pipe for
    // the address, and the error channel.
    let mut descriptors = table(&[
        (0, false),
        (1, false),
        (2, false),
        (3, false),
        (4, false),
        (5, false),
        (6, false),
        (7, true),
        (8, true),
        (9, true),
        (10, true),
    ]);
    hygiene(&mut descriptors, HAND_OFF_SLOT, 1024);
    assert!(descriptors.iter().all(|(fd, flag)| *flag == (*fd >= 3)));
    // The hand-off: the write end of the address pipe is put into the slot,
    // which is made to survive.
    descriptors.insert(3, descriptors[&8]);
    let flags = if descriptors[&3] { 1 } else { 0 };
    assert_eq!(Some(0), set_close_on_exec(flags, false, &platform()));
    descriptors.insert(3, false);
    // The program is executed.
    let left: Vec<i32> =
        descriptors.iter().filter(|(_, flag)| !**flag).map(|(fd, _)| *fd).collect();
    assert_eq!(vec![0, 1, 2, 3], left);
}
