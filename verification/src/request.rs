//! What a daemon is started with: its arguments, its environment and what
//! its child does to the hand-off slot.

use crate::child::HandOff;
use vstd::prelude::*;
use vstd::string::*;
use vstd::utf8::encode_utf8;

verus! {

/// The environment of the program.
#[derive(Debug)]
pub enum Environment {
    /// The environment of the parent.
    Inherit,
    /// These entries, each of the form `NAME=value`, and nothing else.
    Replace(Vec<Vec<u8>>),
}

/// What to launch.
#[derive(Debug)]
pub struct LaunchRequest {
    /// The program, by name or path, and its arguments. Never empty.
    pub arguments: Vec<Vec<u8>>,
    pub environment: Environment,
    /// What the child does to the hand-off slot before it executes the
    /// program.
    pub hand_off: HandOff,
}

/// A list of byte strings as a mathematical value.
pub open spec fn strings(list: Seq<Vec<u8>>) -> Seq<Seq<u8>> {
    list.map_values(|s: Vec<u8>| s@)
}

/// The arguments that start a dbus-daemon which reads this configuration
/// file, does not fork, and prints its address to the hand-off slot.
pub open spec fn daemon_arguments(program: Option<Seq<u8>>, config: Seq<u8>) -> Seq<Seq<u8>> {
    seq![
        match program {
            Some(program) => program,
            None => encode_utf8("dbus-daemon"@),
        },
        encode_utf8("--nofork"@),
        encode_utf8("--config-file"@),
        config,
        encode_utf8("--print-address=3"@),
    ]
}

/// The arguments that start a dbus-broker launcher which reads this
/// configuration file.
pub open spec fn broker_arguments(program: Option<Seq<u8>>, config: Seq<u8>) -> Seq<Seq<u8>> {
    seq![
        match program {
            Some(program) => program,
            None => encode_utf8("dbus-broker-launch"@),
        },
        encode_utf8("--config-file"@),
        config,
    ]
}

/// Whether a variable of the parent's environment is one of those by which
/// a socket is handed over. They are not passed on as they are.
pub open spec fn is_activation_variable(name: Seq<u8>) -> bool {
    name == encode_utf8("LISTEN_PID"@) || name == encode_utf8("LISTEN_FDS"@)
}

/// The entries for the variables of an environment, without those by which
/// a socket is handed over.
pub open spec fn passed_on(inherited: Seq<(Seq<u8>, Seq<u8>)>) -> Seq<Seq<u8>>
    decreases inherited.len(),
{
    if inherited.len() == 0 {
        seq![]
    } else {
        let (name, value) = inherited.last();
        if is_activation_variable(name) {
            passed_on(inherited.drop_last())
        } else {
            passed_on(inherited.drop_last()).push(name + encode_utf8("="@) + value)
        }
    }
}

/// The environment of a program that is handed one socket: what the parent
/// has, without the variables of a hand-over, and the entry that says that
/// one descriptor is handed over. The entry that names the process that it
/// is handed to follows when this process is known.
pub open spec fn broker_environment(inherited: Seq<(Seq<u8>, Seq<u8>)>) -> Seq<Seq<u8>> {
    passed_on(inherited).push(encode_utf8("LISTEN_FDS=1"@))
}

/// A list of pairs of byte strings as a mathematical value.
pub open spec fn pairs(list: Seq<(Vec<u8>, Vec<u8>)>) -> Seq<(Seq<u8>, Seq<u8>)> {
    list.map_values(|p: (Vec<u8>, Vec<u8>)| (p.0@, p.1@))
}

/// A copy of a byte string.
fn copy_bytes(bytes: &[u8]) -> (copy: Vec<u8>)
    ensures
        copy@ == bytes@,
{
    let mut copy: Vec<u8> = Vec::new();
    for i in 0..bytes.len()
        invariant
            copy@ == bytes@.take(i as int),
    {
        copy.push(bytes[i]);
        proof {
            assert(bytes@.take(i + 1) =~= bytes@.take(i as int).push(bytes@[i as int]));
        }
    }
    proof {
        assert(bytes@.take(bytes.len() as int) =~= bytes@);
    }
    copy
}

/// Whether two byte strings are the same.
fn same_bytes(a: &[u8], b: &[u8]) -> (same: bool)
    ensures
        same == (a@ == b@),
{
    if a.len() != b.len() {
        return false;
    }
    for i in 0..a.len()
        invariant
            a.len() == b.len(),
            a@.take(i as int) == b@.take(i as int),
    {
        if a[i] != b[i] {
            return false;
        }
        proof {
            assert(a@.take(i + 1) =~= a@.take(i as int).push(a@[i as int]));
            assert(b@.take(i + 1) =~= b@.take(i as int).push(b@[i as int]));
        }
    }
    proof {
        assert(a@.take(a.len() as int) =~= a@);
        assert(b@.take(b.len() as int) =~= b@);
    }
    true
}

/// What to launch to start a dbus-daemon that reads the configuration file
/// at `config`. The daemon prints its address to the hand-off slot, where
/// the child has put `announce`, the write end of a pipe.
pub fn spawn_dbus_daemon(program: Option<&[u8]>, config: &[u8], announce: i32) -> (request:
    LaunchRequest)
    ensures
        strings(request.arguments@) == daemon_arguments(
            match program {
                Some(p) => Some(p@),
                None => None,
            },
            config@,
        ),
        request.environment is Inherit,
        request.hand_off == (HandOff { source: announce, announce_pid: false }),
{
    let mut arguments: Vec<Vec<u8>> = Vec::new();
    arguments.push(
        match program {
            Some(program) => copy_bytes(program),
            None => "dbus-daemon".as_bytes_vec(),
        },
    );
    arguments.push("--nofork".as_bytes_vec());
    arguments.push("--config-file".as_bytes_vec());
    arguments.push(copy_bytes(config));
    arguments.push("--print-address=3".as_bytes_vec());
    proof {
        assert(strings(arguments@) =~= daemon_arguments(
            match program {
                Some(p) => Some(p@),
                None => None,
            },
            config@,
        ));
    }
    LaunchRequest {
        arguments,
        environment: Environment::Inherit,
        hand_off: HandOff { source: announce, announce_pid: false },
    }
}

/// What to launch to start a dbus-broker that reads the configuration file
/// at `config` and listens on `socket`. The broker finds the socket in the
/// hand-off slot, and is told so by its environment: by `LISTEN_FDS`, and
/// by `LISTEN_PID`, which the child adds when it knows its process id.
/// `inherited` holds the variables of the parent's environment, each with
/// its value.
pub fn spawn_dbus_broker(
    program: Option<&[u8]>,
    config: &[u8],
    socket: i32,
    inherited: &Vec<(Vec<u8>, Vec<u8>)>,
) -> (request: LaunchRequest)
    ensures
        strings(request.arguments@) == broker_arguments(
            match program {
                Some(p) => Some(p@),
                None => None,
            },
            config@,
        ),
        request.environment matches Environment::Replace(entries) && strings(entries@)
            == broker_environment(pairs(inherited@)),
        request.hand_off == (HandOff { source: socket, announce_pid: true }),
{
    let mut arguments: Vec<Vec<u8>> = Vec::new();
    arguments.push(
        match program {
            Some(program) => copy_bytes(program),
            None => "dbus-broker-launch".as_bytes_vec(),
        },
    );
    arguments.push("--config-file".as_bytes_vec());
    arguments.push(copy_bytes(config));
    proof {
        assert(strings(arguments@) =~= broker_arguments(
            match program {
                Some(p) => Some(p@),
                None => None,
            },
            config@,
        ));
    }

    let mut entries: Vec<Vec<u8>> = Vec::new();
    let ghost all = pairs(inherited@);
    for i in 0..inherited.len()
        invariant
            all == pairs(inherited@),
            strings(entries@) == passed_on(all.take(i as int)),
    {
        let name = &inherited[i].0;
        let value = &inherited[i].1;
        proof {
            assert(all.take(i + 1).drop_last() =~= all.take(i as int));
            assert(all.take(i + 1).last() == (name@, value@));
        }
        if same_bytes(name.as_slice(), "LISTEN_PID".as_bytes()) || same_bytes(
            name.as_slice(),
            "LISTEN_FDS".as_bytes(),
        ) {
            // They have to be overwritten anyway.
        } else {
            let mut entry = copy_bytes(name.as_slice());
            let ghost before = entry@;
            let sign = "=".as_bytes();
            for j in 0..sign.len()
                invariant
                    entry@ == before + sign@.take(j as int),
            {
                entry.push(sign[j]);
                proof {
                    assert(sign@.take(j + 1) =~= sign@.take(j as int).push(sign@[j as int]));
                }
            }
            proof {
                assert(sign@.take(sign.len() as int) =~= sign@);
            }
            let ghost before = entry@;
            for j in 0..value.len()
                invariant
                    entry@ == before + value@.take(j as int),
            {
                entry.push(value[j]);
                proof {
                    assert(value@.take(j + 1) =~= value@.take(j as int).push(value@[j as int]));
                }
            }
            proof {
                assert(value@.take(value.len() as int) =~= value@);
                assert(entry@ =~= name@ + encode_utf8("="@) + value@);
            }
            let ghost entries_before = strings(entries@);
            entries.push(entry);
            proof {
                assert(strings(entries@) =~= entries_before.push(entry@));
            }
        }
    }
    proof {
        assert(all.take(inherited.len() as int) =~= all);
    }
    let ghost entries_before = strings(entries@);
    entries.push("LISTEN_FDS=1".as_bytes_vec());
    proof {
        assert(strings(entries@) =~= entries_before.push(encode_utf8("LISTEN_FDS=1"@)));
    }
    LaunchRequest {
        arguments,
        environment: Environment::Replace(entries),
        hand_off: HandOff { source: socket, announce_pid: true },
    }
}

/// The size of the buffer that holds the entry for the process id.
pub const PID_ENTRY_LEN: usize = 30;

/// A number in decimal digits.
pub open spec fn decimal(n: nat) -> Seq<u8>
    decreases n,
{
    if n < 10 {
        seq![(0x30 + n) as u8]
    } else {
        decimal(n / 10).push((0x30 + n % 10) as u8)
    }
}

/// An integer in decimal digits, with a minus sign if it is negative.
pub open spec fn signed_decimal(i: int) -> Seq<u8> {
    if i < 0 {
        seq![0x2du8] + decimal((-i) as nat)
    } else {
        decimal(i as nat)
    }
}

/// The environment entry that names the process to which a socket is
/// handed over, with the zero byte that ends it.
pub open spec fn listen_pid(pid: i32) -> Seq<u8> {
    encode_utf8("LISTEN_PID="@) + signed_decimal(pid as int) + seq![0u8]
}

/// The digits of `n`, at the end of a buffer of ten bytes, and where they
/// begin.
fn digits(n: u32) -> (r: ([u8; 10], usize))
    ensures
        r.1 < 10,
        r.0@.subrange(r.1 as int, 10) == decimal(n as nat),
{
    let mut buffer: [u8; 10] = [0, 0, 0, 0, 0, 0, 0, 0, 0, 0];
    let mut at: usize = 9;
    let mut rest: u32 = n / 10;
    buffer[9] = 0x30 + (n % 10) as u8;
    proof {
        assert(buffer@.subrange(9, 10) =~= seq![(0x30 + n % 10) as u8]);
    }
    while rest > 0
        invariant
            at <= 9,
            at == 9 ==> rest <= 429496729,
            at == 8 ==> rest <= 42949672,
            at == 7 ==> rest <= 4294967,
            at == 6 ==> rest <= 429496,
            at == 5 ==> rest <= 42949,
            at == 4 ==> rest <= 4294,
            at == 3 ==> rest <= 429,
            at == 2 ==> rest <= 42,
            at == 1 ==> rest <= 4,
            at == 0 ==> rest == 0,
            decimal(n as nat) == if rest > 0 {
                decimal(rest as nat) + buffer@.subrange(at as int, 10)
            } else {
                buffer@.subrange(at as int, 10)
            },
        decreases rest,
    {
        let ghost before = buffer@;
        let digit = 0x30 + (rest % 10) as u8;
        at = at - 1;
        buffer[at] = digit;
        proof {
            assert(buffer@.subrange(at as int, 10) =~= seq![digit] + before.subrange(at + 1, 10));
            if rest >= 10 {
                assert(decimal(rest as nat) == decimal((rest / 10) as nat).push(digit));
                assert(decimal((rest / 10) as nat).push(digit) + before.subrange(at + 1, 10)
                    =~= decimal((rest / 10) as nat) + buffer@.subrange(at as int, 10));
            } else {
                assert(decimal(rest as nat) =~= seq![digit]);
            }
        }
        rest = rest / 10;
    }
    (buffer, at)
}

/// The buffer that holds the environment entry `LISTEN_PID` for this
/// process id: the entry, the zero byte that ends it, and zero bytes up to
/// the end of the buffer. Nothing is allocated.
pub fn listen_pid_entry(pid: i32) -> (entry: [u8; 30])
    ensures
        listen_pid(pid).len() <= PID_ENTRY_LEN,
        entry@ == listen_pid(pid) + Seq::new(
            (PID_ENTRY_LEN - listen_pid(pid).len()) as nat,
            |i: int| 0u8,
        ),
{
    let mut entry: [u8; 30] = [
        0, 0, 0, 0, 0, 0, 0, 0, 0, 0, 0, 0, 0, 0, 0, 0, 0, 0, 0, 0, 0, 0, 0, 0, 0, 0, 0, 0, 0, 0,
    ];
    let name = "LISTEN_PID=".as_bytes();
    proof {
        reveal_strlit("LISTEN_PID=");
        vstd::utf8::is_ascii_chars_encode_utf8("LISTEN_PID="@);
        assert(name@.len() == 11);
    }
    let mut at: usize = 0;
    while at < name.len()
        invariant
            at <= name.len() == 11,
            entry@.take(at as int) == name@.take(at as int),
            forall|i: int| at <= i < 30 ==> entry@[i] == 0,
        decreases name.len() - at,
    {
        let ghost before = entry@;
        entry[at] = name[at];
        proof {
            assert(entry@.take(at + 1) =~= before.take(at as int).push(name@[at as int]));
            assert(name@.take(at + 1) =~= name@.take(at as int).push(name@[at as int]));
        }
        at = at + 1;
    }
    proof {
        assert(name@.take(11) =~= name@);
    }
    let magnitude: u32 = if pid < 0 {
        (-(pid as i64)) as u32
    } else {
        pid as u32
    };
    if pid < 0 {
        let ghost before = entry@;
        entry[at] = 0x2d;
        proof {
            assert(entry@.take(at + 1) =~= before.take(at as int).push(0x2du8));
        }
        at = at + 1;
    }
    let ghost sign: Seq<u8> = if pid < 0 {
        seq![0x2du8]
    } else {
        seq![]
    };
    assert(entry@.take(at as int) =~= name@ + sign);
    let (buffer, first) = digits(magnitude);
    let ghost number = buffer@.subrange(first as int, 10);
    let start = at;
    let mut i: usize = first;
    while i < 10
        invariant
            first <= i <= 10,
            start == 11 + sign.len(),
            sign.len() <= 1,
            at == start + (i - first),
            number == buffer@.subrange(first as int, 10),
            entry@.take(at as int) == name@ + sign + number.take(i - first),
            name@.len() == 11,
            forall|k: int| at <= k < 30 ==> entry@[k] == 0,
        decreases 10 - i,
    {
        let ghost before = entry@;
        entry[at] = buffer[i];
        proof {
            assert(number.take(i + 1 - first) =~= number.take(i - first).push(buffer@[i as int]));
            assert(entry@.take(at + 1) =~= before.take(at as int).push(buffer@[i as int]));
        }
        at = at + 1;
        i = i + 1;
    }
    proof {
        assert(number.take(10 - first) =~= number);
        assert(signed_decimal(pid as int) =~= sign + number);
        let text = listen_pid(pid);
        assert(text =~= name@ + sign + number + seq![0u8]);
        assert(text.len() == at + 1);
        assert(entry@ =~= text + Seq::new((PID_ENTRY_LEN - text.len()) as nat, |i: int| 0u8));
    }
    entry
}

} // verus!
