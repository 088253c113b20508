//! Descriptor hygiene: keeping the parent's descriptors out of the program
//! that the child executes.
//!
//! Before it executes the program the child marks every open descriptor
//! from a threshold upward close-on-exec. It learns which descriptors are
//! open by probing them in batches, one system call per batch. The decisions
//! are made here; the system calls are made by the caller, who reports what
//! each returned.

use crate::error::Error;
use vstd::prelude::*;

verus! {

/// The descriptor by which an activated program receives a socket, or
/// reports back: the first one behind the standard streams.
pub const HAND_OFF_SLOT: i32 = 3;

/// The number of descriptors that one system call probes.
pub const BATCH: usize = 512;

/// The values by which this platform names what the launcher computes with.
#[derive(Clone, Copy, Debug)]
pub struct Platform {
    /// The descriptor flag that closes a descriptor when a program is
    /// executed.
    pub close_on_exec: i32,
    /// The bit that a probe sets for a descriptor that is not open.
    pub invalid: i16,
    /// The error code for a descriptor that is not open.
    pub bad_descriptor: i32,
    /// The error code for an invalid argument.
    pub invalid_argument: i32,
    /// The error code of a system call that a signal interrupted.
    pub interrupted: i32,
}

/// The values that the close-on-exec flag has: 1 on every platform but
/// Redox, where it is 0x0100_0000.
pub open spec fn is_close_on_exec_flag(flag: i32) -> bool {
    flag == 1 || flag == 0x0100_0000
}

/// The values that the bit for a descriptor that is not open has: 0x20 on
/// most platforms, 0x1000 on Haiku and QNX, 0x4000 on WASI and the highest
/// bit on AIX.
pub open spec fn is_invalid_bit(bit: i16) -> bool {
    bit == 0x20 || bit == 0x1000 || bit == 0x4000 || bit == -0x8000
}

/// The values that the error code for a descriptor that is not open has: 9
/// on most platforms, 8 on WASI and Emscripten, 24 on HelenOS, and numbers
/// of their own on Hurd and Haiku.
pub open spec fn is_bad_descriptor_code(code: i32) -> bool {
    code == 9 || code == 8 || code == 24 || code == 1073741833 || code == -2147459072
}

/// The values that the error code for an invalid argument has: 22 on most
/// platforms, 28 on WASI and Emscripten, 14 on HelenOS, and numbers of their
/// own on Hurd and Haiku.
pub open spec fn is_invalid_argument_code(code: i32) -> bool {
    code == 22 || code == 28 || code == 14 || code == 1073741846 || code == -2147483643
}

/// The values that the error code of an interrupted system call has: 4 on
/// most platforms, 27 on WASI and Emscripten, 17 on HelenOS, and numbers of
/// their own on Hurd and Haiku.
pub open spec fn is_interrupted_code(code: i32) -> bool {
    code == 4 || code == 27 || code == 17 || code == 1073741828 || code == -2147483638
}

/// `libc::FD_CLOEXEC`, the close-on-exec descriptor flag. Its value differs
/// between platforms; it is one of the values that libc has for it.
#[verifier::external_body]
fn fd_cloexec() -> (flag: i32)
    ensures
        is_close_on_exec_flag(flag),
{
    libc::FD_CLOEXEC
}

/// `libc::POLLNVAL`, the bit that `poll` returns for a descriptor that is
/// not open. Its value differs between platforms; it is one of the values
/// that libc has for it.
#[verifier::external_body]
fn pollnval() -> (bit: i16)
    ensures
        is_invalid_bit(bit),
{
    libc::POLLNVAL
}

/// `libc::EBADF`, the error code for a bad descriptor. Its value differs
/// between platforms; it is one of the values that libc has for it.
#[verifier::external_body]
fn ebadf() -> (code: i32)
    ensures
        is_bad_descriptor_code(code),
{
    libc::EBADF
}

/// `libc::EINVAL`, the error code for an invalid argument. Its value
/// differs between platforms; it is one of the values that libc has for it.
#[verifier::external_body]
fn einval() -> (code: i32)
    ensures
        is_invalid_argument_code(code),
{
    libc::EINVAL
}

/// `libc::EINTR`, the error code of an interrupted system call. Its value
/// differs between platforms; it is one of the values that libc has for it.
#[verifier::external_body]
fn eintr() -> (code: i32)
    ensures
        is_interrupted_code(code),
{
    libc::EINTR
}

impl Platform {
    /// The values of the platform that the library was built for. Which
    /// platform that is is not known here, so each value is one of those
    /// that some platform has for it.
    pub fn native() -> (platform: Platform)
        ensures
            is_close_on_exec_flag(platform.close_on_exec),
            is_invalid_bit(platform.invalid),
            is_bad_descriptor_code(platform.bad_descriptor),
            is_invalid_argument_code(platform.invalid_argument),
            is_interrupted_code(platform.interrupted),
    {
        Platform {
            close_on_exec: fd_cloexec(),
            invalid: pollnval(),
            bad_descriptor: ebadf(),
            invalid_argument: einval(),
            interrupted: eintr(),
        }
    }
}

/// Descriptor flags with the close-on-exec flag set or cleared.
pub open spec fn flags_with(flags: i32, mask: i32, close_on_exec: bool) -> i32 {
    if close_on_exec {
        flags | mask
    } else {
        flags & !mask
    }
}

/// The flags that a descriptor needs so that it is closed, or kept, when a
/// program is executed, given the flags that it has: `None` if it has them
/// already and nothing is to be set.
pub fn set_close_on_exec(flags: i32, close_on_exec: bool, platform: &Platform) -> (new: Option<i32>)
    ensures
        new == if flags_with(flags, platform.close_on_exec, close_on_exec) == flags {
            None
        } else {
            Some(flags_with(flags, platform.close_on_exec, close_on_exec))
        },
{
    let new = if close_on_exec {
        flags | platform.close_on_exec
    } else {
        flags & !platform.close_on_exec
    };
    if flags != new {
        Some(new)
    } else {
        None
    }
}

/// Flags that were computed for a descriptor hold the flag, or lack it, as
/// was asked, and differ from the old flags in nothing else.
pub proof fn lemma_flags_with(flags: i32, mask: i32, close_on_exec: bool)
    ensures
        close_on_exec ==> flags_with(flags, mask, close_on_exec) & mask == mask,
        !close_on_exec ==> flags_with(flags, mask, close_on_exec) & mask == 0,
        flags_with(flags, mask, close_on_exec) & !mask == flags & !mask,
        flags_with(flags_with(flags, mask, close_on_exec), mask, close_on_exec) == flags_with(
            flags,
            mask,
            close_on_exec,
        ),
{
    assert((flags | mask) & mask == mask) by (bit_vector);
    assert((flags & !mask) & mask == 0) by (bit_vector);
    assert((flags | mask) & !mask == flags & !mask) by (bit_vector);
    assert((flags & !mask) & !mask == flags & !mask) by (bit_vector);
    assert((flags | mask) | mask == flags | mask) by (bit_vector);
}

/// The limit on descriptor numbers as a descriptor number: the soft limit
/// on open files, cut to the width of a descriptor.
pub fn fd_limit(soft_limit: u64) -> (limit: i32)
    ensures
        limit == soft_limit as i32,
{
    #[verifier::truncate]
    (soft_limit as i32)
}

/// How a scan learns which descriptors are open.
#[derive(Clone, Copy, Debug, PartialEq, Eq, Structural)]
pub enum Strategy {
    /// By probing them, a batch with each system call. This needs a probe
    /// that tells a descriptor that is not open from one that is.
    Batched,
    /// By trying to mark each of them. A descriptor that is not open cannot
    /// be marked, and is passed over.
    Linear,
}

/// What the scan asks its caller to do next.
#[derive(Clone, Copy, Debug, PartialEq, Eq)]
pub enum ScanStep {
    /// Query the limit on descriptor numbers and report it.
    Limit,
    /// Probe `count` descriptors from `first` upward with one system call
    /// and store what it reports for them, in this order.
    Probe { first: i32, count: usize },
    /// Mark this descriptor close-on-exec.
    Mark(i32),
    /// The scan is over.
    Done(Result<(), Error>),
}

/// Where a scan stands.
#[derive(Clone, Copy, Debug, PartialEq, Eq)]
pub enum ScanPhase {
    /// Nothing was asked yet.
    Idle,
    /// The limit was asked for.
    AwaitLimit,
    /// A batch of descriptors is being probed.
    AwaitProbe,
    /// A descriptor is being marked.
    AwaitMark,
    /// The scan is over.
    Finished(Result<(), Error>),
}

/// A scan as a mathematical value: where it stands, and what it has seen
/// and asked for so far.
pub struct ScanView {
    pub platform: Platform,
    pub strategy: Strategy,
    pub phase: ScanPhase,
    /// The first descriptor to look at.
    pub min: int,
    /// The limit on descriptor numbers; descriptors below it are looked at.
    pub limit: int,
    /// The first descriptor of the current batch.
    pub first: int,
    /// The length of the current batch.
    pub count: int,
    /// How many descriptors of the current batch have been dealt with.
    pub index: int,
    /// How many batches have been probed.
    pub probes: nat,
    /// The descriptors that a probe reported as open, or that were not
    /// probed because each of them is tried.
    pub open: Set<int>,
    /// The descriptors that a probe reported as not open.
    pub closed: Set<int>,
    /// The descriptors that the caller was asked to mark.
    pub marked: Set<int>,
}

/// The descriptors from `low` up to, and without, `high`.
pub open spec fn descriptors(low: int, high: int) -> Set<int> {
    Set::new(|fd: int| low <= fd < high)
}

/// Whether a probe found the descriptor open: the bit for an invalid
/// descriptor is not set in what it reported.
pub open spec fn reported_open(revents: i16, invalid: i16) -> bool {
    revents & invalid == 0
}

/// The position of the first descriptor to mark in a batch of `count`, at
/// or behind `from`: the first one that was reported as open, or the first
/// one at all if each of them is tried.
pub open spec fn first_open(
    strategy: Strategy,
    revents: Seq<i16>,
    from: int,
    count: int,
    invalid: i16,
) -> Option<int>
    decreases count - from,
{
    if from >= count {
        None
    } else if strategy is Linear || reported_open(revents[from], invalid) {
        Some(from)
    } else {
        first_open(strategy, revents, from + 1, count, invalid)
    }
}

/// The end of a scan.
pub open spec fn scan_finish(v: ScanView, result: Result<(), Error>) -> (ScanView, ScanStep) {
    (ScanView { phase: ScanPhase::Finished(result), ..v }, ScanStep::Done(result))
}

/// The start of the next batch, or the end of the scan if the limit is
/// reached. A batch is probed, or its first descriptor is marked at once if
/// each of them is tried.
pub open spec fn scan_batch(v: ScanView) -> (ScanView, ScanStep) {
    if v.first < v.limit {
        let count = if v.limit - v.first < BATCH {
            v.limit - v.first
        } else {
            BATCH as int
        };
        match v.strategy {
            Strategy::Batched => (
                ScanView {
                    phase: ScanPhase::AwaitProbe,
                    count,
                    index: 0,
                    probes: v.probes + 1,
                    ..v
                },
                ScanStep::Probe { first: v.first as i32, count: count as usize },
            ),
            Strategy::Linear => (
                ScanView {
                    phase: ScanPhase::AwaitMark,
                    count,
                    index: 1,
                    open: v.open.insert(v.first),
                    marked: v.marked.insert(v.first),
                    ..v
                },
                ScanStep::Mark(v.first as i32),
            ),
        }
    } else {
        scan_finish(ScanView { count: 0, index: 0, ..v }, Ok(()))
    }
}

/// The next descriptor of the current batch to mark, or the next batch if
/// none is left.
pub open spec fn scan_mark(v: ScanView, revents: Seq<i16>) -> (ScanView, ScanStep) {
    match first_open(v.strategy, revents, v.index, v.count, v.platform.invalid) {
        Some(k) => (
            ScanView {
                phase: ScanPhase::AwaitMark,
                index: k + 1,
                open: v.open.insert(v.first + k),
                closed: v.closed + descriptors(v.first + v.index, v.first + k),
                marked: v.marked.insert(v.first + k),
                ..v
            },
            ScanStep::Mark((v.first + k) as i32),
        ),
        None => scan_batch(
            ScanView {
                first: v.first + v.count,
                closed: v.closed + descriptors(v.first + v.index, v.first + v.count),
                ..v
            },
        ),
    }
}

/// A scan after the caller has done what it was asked and reports the
/// outcome, and what it is asked next.
///
/// `outcome` is the result of the last step; its value is the limit after
/// `Limit` and has no meaning otherwise. `revents` is what the last probe
/// reported. A descriptor that cannot be marked because it is no longer open
/// is passed over; any other failure ends the scan.
pub open spec fn scan_next(v: ScanView, outcome: Result<i32, Error>, revents: Seq<i16>) -> (
    ScanView,
    ScanStep,
) {
    match v.phase {
        ScanPhase::Idle => (ScanView { phase: ScanPhase::AwaitLimit, ..v }, ScanStep::Limit),
        ScanPhase::AwaitLimit => match outcome {
            Ok(limit) => scan_batch(ScanView { limit: limit as int, first: v.min, ..v }),
            Err(e) => scan_finish(v, Err(e)),
        },
        ScanPhase::AwaitProbe => match outcome {
            Ok(_) => scan_mark(v, revents),
            Err(e) => scan_finish(v, Err(e)),
        },
        ScanPhase::AwaitMark => match outcome {
            Ok(_) => scan_mark(v, revents),
            Err(e) => if e == Error::Os(v.platform.bad_descriptor) {
                scan_mark(v, revents)
            } else {
                scan_finish(v, Err(e))
            },
        },
        ScanPhase::Finished(result) => (v, ScanStep::Done(result)),
    }
}

/// What holds of every scan, whatever its caller reports.
pub open spec fn scan_inv(v: ScanView) -> bool {
    &&& v.marked == v.open
    &&& v.open.disjoint(v.closed)
    &&& match v.phase {
        ScanPhase::Idle | ScanPhase::AwaitLimit => {
            &&& v.probes == 0
            &&& v.open == Set::<int>::empty()
            &&& v.closed == Set::<int>::empty()
        },
        ScanPhase::AwaitProbe | ScanPhase::AwaitMark => {
            &&& v.min <= v.first < v.limit
            &&& 0 <= v.index <= v.count <= BATCH
            &&& 0 < v.count
            &&& v.first + v.count <= v.limit
            &&& v.count == BATCH || v.first + v.count == v.limit
            &&& (v.first - v.min) % (BATCH as int) == 0
            &&& v.probes == if v.strategy is Linear {
                0
            } else {
                (v.first - v.min) / (BATCH as int) + 1
            }
            &&& v.phase is AwaitProbe ==> v.strategy is Batched
            &&& v.open + v.closed == descriptors(v.min, v.first + v.index)
        },
        ScanPhase::Finished(Ok(_)) => {
            &&& v.first >= v.limit
            &&& v.first == v.limit || v.first == v.min
            &&& v.probes == if v.strategy is Batched && v.limit > v.min {
                (v.limit - v.min + BATCH - 1) / (BATCH as int)
            } else {
                0
            }
            &&& v.open + v.closed == descriptors(v.min, v.limit)
        },
        ScanPhase::Finished(Err(_)) => true,
    }
}

/// What holds of a scan between two batches, when `first` is the next
/// descriptor to look at.
spec fn scan_between(v: ScanView) -> bool {
    &&& v.marked == v.open
    &&& v.open.disjoint(v.closed)
    &&& v.min <= v.first
    &&& v.first <= v.limit || v.first == v.min
    &&& (v.first - v.min) % (BATCH as int) == 0 || v.first == v.limit
    &&& v.probes == if v.strategy is Linear {
        0
    } else {
        (v.first - v.min + BATCH - 1) / (BATCH as int)
    }
    &&& v.open + v.closed == descriptors(v.min, v.first)
}

/// Descriptors that were found not open, from `from` up to `to`, add to
/// what is known of the descriptors below `from`; and so does `to` itself
/// if it was found open.
proof fn lemma_more_descriptors(open: Set<int>, closed: Set<int>, min: int, from: int, to: int)
    requires
        open + closed == descriptors(min, from),
        open.disjoint(closed),
        min <= from <= to,
    ensures
        open + (closed + descriptors(from, to)) == descriptors(min, to),
        open.disjoint(closed + descriptors(from, to)),
        open.insert(to) + (closed + descriptors(from, to)) == descriptors(min, to + 1),
        open.insert(to).disjoint(closed + descriptors(from, to)),
{
    let more = closed + descriptors(from, to);
    assert forall|fd: int| (open + closed).contains(fd) == (min <= fd < from) by {
        assert(descriptors(min, from).contains(fd) == (min <= fd < from));
    }
    assert forall|fd: int| #[trigger] (open + more).contains(fd) == descriptors(min, to).contains(
        fd,
    ) by {
        assert((open + closed).contains(fd) == (min <= fd < from));
    }
    assert(open + more =~= descriptors(min, to));
    assert forall|fd: int| #[trigger] (open.insert(to) + more).contains(fd) == descriptors(
        min,
        to + 1,
    ).contains(fd) by {
        assert((open + closed).contains(fd) == (min <= fd < from));
    }
    assert(open.insert(to) + more =~= descriptors(min, to + 1));
    assert forall|fd: int| #[trigger] open.insert(to).contains(fd) implies !more.contains(fd) by {
        assert((open + closed).contains(fd) == (min <= fd < from));
    }
    assert forall|fd: int| #[trigger] open.contains(fd) implies !more.contains(fd) by {
        assert((open + closed).contains(fd) == (min <= fd < from));
    }
}

/// A scan of the open descriptors from a threshold upward, which marks
/// each of them close-on-exec.
///
/// The scan keeps account of what it has seen and asked for, so that
/// `scan_inv` holds of it at every step.
pub struct Scan {
    platform: Platform,
    strategy: Strategy,
    phase: ScanPhase,
    min: i32,
    limit: i32,
    first: i32,
    count: usize,
    index: usize,
    probes: Ghost<nat>,
    open: Ghost<Set<int>>,
    closed: Ghost<Set<int>>,
    marked: Ghost<Set<int>>,
}

impl View for Scan {
    type V = ScanView;

    closed spec fn view(&self) -> ScanView {
        ScanView {
            platform: self.platform,
            strategy: self.strategy,
            phase: self.phase,
            min: self.min as int,
            limit: self.limit as int,
            first: self.first as int,
            count: self.count as int,
            index: self.index as int,
            probes: self.probes@,
            open: self.open@,
            closed: self.closed@,
            marked: self.marked@,
        }
    }
}

impl Scan {
    #[verifier::type_invariant]
    spec fn wf(&self) -> bool {
        scan_inv(self@)
    }

    /// A scan of the descriptors from `min` upward, not yet started.
    pub fn new(min: i32, platform: Platform, strategy: Strategy) -> (scan: Scan)
        ensures
            scan@ == (ScanView {
                platform,
                strategy,
                phase: ScanPhase::Idle,
                min: min as int,
                limit: 0,
                first: min as int,
                count: 0,
                index: 0,
                probes: 0,
                open: Set::empty(),
                closed: Set::empty(),
                marked: Set::empty(),
            }),
    {
        Scan {
            platform,
            strategy,
            phase: ScanPhase::Idle,
            min,
            limit: 0,
            first: min,
            count: 0,
            index: 0,
            probes: Ghost(0),
            open: Ghost(Set::empty()),
            closed: Ghost(Set::empty()),
            marked: Ghost(Set::empty()),
        }
    }

    /// Ends the scan.
    fn finish(&mut self, result: Result<(), Error>) -> (next: ScanStep)
        requires
            result is Err,
        ensures
            (final(self)@, next) == scan_finish(old(self)@, result),
    {
        proof {
            use_type_invariant(&*self);
        }
        self.phase = ScanPhase::Finished(result);
        ScanStep::Done(result)
    }

    /// Starts the batch at `first`, or ends the scan if there is none.
    fn batch(&mut self, limit: i32, first: i32, Ghost(closed): Ghost<Set<int>>) -> (next:
        ScanStep)
        requires
            scan_between(ScanView { limit: limit as int, first: first as int, closed, ..old(self)@ }),
        ensures
            (final(self)@, next) == scan_batch(
                ScanView { limit: limit as int, first: first as int, closed, ..old(self)@ },
            ),
    {
        let ghost start = ScanView { limit: limit as int, first: first as int, closed, ..self@ };
        if first < limit {
            let left = limit as i64 - first as i64;
            let count: usize = if left < 512 {
                left as usize
            } else {
                512
            };
            match self.strategy {
                Strategy::Batched => {
                    *self = Scan {
                        platform: self.platform,
                        strategy: self.strategy,
                        phase: ScanPhase::AwaitProbe,
                        min: self.min,
                        limit,
                        first,
                        count,
                        index: 0,
                        probes: Ghost((self.probes@ + 1) as nat),
                        open: self.open,
                        closed: Ghost(closed),
                        marked: self.marked,
                    };
                    ScanStep::Probe { first, count }
                },
                Strategy::Linear => {
                    proof {
                        lemma_more_descriptors(
                            start.open,
                            closed,
                            start.min,
                            start.first,
                            start.first,
                        );
                        assert(closed + descriptors(start.first, start.first) =~= closed);
                    }
                    *self = Scan {
                        platform: self.platform,
                        strategy: self.strategy,
                        phase: ScanPhase::AwaitMark,
                        min: self.min,
                        limit,
                        first,
                        count,
                        index: 1,
                        probes: self.probes,
                        open: Ghost(self.open@.insert(first as int)),
                        closed: Ghost(closed),
                        marked: Ghost(self.marked@.insert(first as int)),
                    };
                    ScanStep::Mark(first)
                },
            }
        } else {
            proof {
                assert(descriptors(start.min, start.first) =~= descriptors(start.min, start.limit));
            }
            *self = Scan {
                platform: self.platform,
                strategy: self.strategy,
                phase: ScanPhase::Finished(Ok(())),
                min: self.min,
                limit,
                first,
                count: 0,
                index: 0,
                probes: self.probes,
                open: self.open,
                closed: Ghost(closed),
                marked: self.marked,
            };
            ScanStep::Done(Ok(()))
        }
    }

    /// Asks for the next open descriptor of the batch to be marked, or goes
    /// on to the next batch.
    fn mark(&mut self, revents: &[i16; 512]) -> (next: ScanStep)
        requires
            old(self)@.phase is AwaitProbe || old(self)@.phase is AwaitMark,
        ensures
            (final(self)@, next) == scan_mark(old(self)@, revents@),
    {
        proof {
            use_type_invariant(&*self);
        }
        let ghost v = self@;
        let mut k: usize = self.index;
        while k < self.count && !(self.strategy == Strategy::Linear) && revents[k]
            & self.platform.invalid != 0
            invariant
                self@ == v,
                scan_inv(v),
                v.phase is AwaitProbe || v.phase is AwaitMark,
                v.index <= k <= v.count,
                first_open(v.strategy, revents@, v.index, v.count, v.platform.invalid)
                    == first_open(v.strategy, revents@, k as int, v.count, v.platform.invalid),
            decreases self.count - k,
        {
            k = k + 1;
        }
        if k < self.count {
            let ghost seen = descriptors(v.first + v.index, v.first + k);
            proof {
                lemma_more_descriptors(v.open, v.closed, v.min, v.first + v.index, v.first + k);
            }
            let fd = self.first + k as i32;
            *self = Scan {
                platform: self.platform,
                strategy: self.strategy,
                phase: ScanPhase::AwaitMark,
                min: self.min,
                limit: self.limit,
                first: self.first,
                count: self.count,
                index: k + 1,
                probes: self.probes,
                open: Ghost(self.open@.insert(v.first + k)),
                closed: Ghost(self.closed@ + seen),
                marked: Ghost(self.marked@.insert(v.first + k)),
            };
            ScanStep::Mark(fd)
        } else {
            let ghost seen = descriptors(v.first + v.index, v.first + v.count);
            proof {
                lemma_more_descriptors(
                    v.open,
                    v.closed,
                    v.min,
                    v.first + v.index,
                    v.first + v.count,
                );
            }
            let first = self.first + self.count as i32;
            self.batch(self.limit, first, Ghost(self.closed@ + seen))
        }
    }

    /// Takes the outcome of the last step and says what to do next.
    ///
    /// Before the first step `outcome` has no meaning. After `Limit` it
    /// holds the limit, after `Probe` and `Mark` only success or failure
    /// count. `revents` is where the caller keeps what the last probe
    /// reported for each descriptor of the batch.
    pub fn step(&mut self, outcome: Result<i32, Error>, revents: &[i16; 512]) -> (next: ScanStep)
        ensures
            (final(self)@, next) == scan_next(old(self)@, outcome, revents@),
            scan_inv(final(self)@),
    {
        proof {
            use_type_invariant(&*self);
        }
        let next = match self.phase {
            ScanPhase::Idle => {
                self.phase = ScanPhase::AwaitLimit;
                ScanStep::Limit
            },
            ScanPhase::AwaitLimit => match outcome {
                Ok(limit) => {
                    proof {
                        assert(self@.open + self@.closed =~= descriptors(self@.min, self@.min));
                    }
                    self.batch(limit, self.min, Ghost(self.closed@))
                },
                Err(e) => self.finish(Err(e)),
            },
            ScanPhase::AwaitProbe => match outcome {
                Ok(_) => self.mark(revents),
                Err(e) => self.finish(Err(e)),
            },
            ScanPhase::AwaitMark => match outcome {
                Ok(_) => self.mark(revents),
                Err(e) => {
                    if e == Error::Os(self.platform.bad_descriptor) {
                        self.mark(revents)
                    } else {
                        self.finish(Err(e))
                    }
                },
            },
            ScanPhase::Finished(result) => ScanStep::Done(result),
        };
        proof {
            use_type_invariant(&*self);
        }
        next
    }
}

/// A scan that has ended well has dealt with every descriptor from the
/// threshold up to the limit: each of them was found open or not open, and
/// the caller was asked to mark each one that was found open, and no other
/// descriptor. A scan that probes has made one probe for each batch, the
/// last of which may be shorter than the others.
pub proof fn lemma_scan_is_complete(v: ScanView)
    requires
        scan_inv(v),
        v.phase == ScanPhase::Finished(Ok(())),
    ensures
        forall|fd: int| v.min <= fd < v.limit ==> v.open.contains(fd) || v.closed.contains(fd),
        forall|fd: int| v.open.contains(fd) ==> v.marked.contains(fd),
        forall|fd: int| v.marked.contains(fd) ==> v.open.contains(fd) && v.min <= fd < v.limit,
        v.strategy is Batched && v.limit > v.min ==> (v.probes - 1) * BATCH < v.limit - v.min
            <= v.probes * BATCH,
        v.strategy is Linear || v.limit <= v.min ==> v.probes == 0,
{
    assert forall|fd: int| v.min <= fd < v.limit implies v.open.contains(fd) || v.closed.contains(
        fd,
    ) by {
        assert(descriptors(v.min, v.limit).contains(fd));
        assert((v.open + v.closed).contains(fd));
    }
    assert forall|fd: int| v.marked.contains(fd) implies v.open.contains(fd) && v.min <= fd
        < v.limit by {
        assert((v.open + v.closed).contains(fd));
        assert(descriptors(v.min, v.limit).contains(fd));
    }
}

} // verus!
