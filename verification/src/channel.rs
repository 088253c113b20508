//! The error channel between the child and the parent.
//!
//! The child holds the write end of a pipe that is closed when the program
//! is executed. If the program cannot be executed the child writes the error
//! code as four bytes in native byte order and terminates. So the parent
//! reads either nothing, and knows that the program runs, or four bytes,
//! and knows why it does not.

use vstd::endian::{endianness, Endian};
use vstd::prelude::*;

verus! {

/// The length of a message on the error channel.
pub const MESSAGE_LEN: usize = 4;

/// An error code as an unsigned number: its value modulo 2^32.
pub open spec fn unsigned(code: i32) -> int {
    if code < 0 {
        code + 0x1_0000_0000
    } else {
        code as int
    }
}

/// The error code that an unsigned number below 2^32 stands for.
pub open spec fn signed(value: int) -> i32 {
    if value >= 0x8000_0000 {
        (value - 0x1_0000_0000) as i32
    } else {
        value as i32
    }
}

/// The four bytes of an error code, least significant first.
pub open spec fn little_endian(code: i32) -> Seq<u8> {
    let u = unsigned(code);
    seq![
        (u % 0x100) as u8,
        (u / 0x100 % 0x100) as u8,
        (u / 0x1_0000 % 0x100) as u8,
        (u / 0x100_0000 % 0x100) as u8,
    ]
}

/// The message that carries an error code, in the given byte order.
pub open spec fn message(order: Endian, code: i32) -> Seq<u8> {
    match order {
        Endian::Little => little_endian(code),
        Endian::Big => little_endian(code).reverse(),
    }
}

/// The number that four bytes hold, the first byte least significant.
pub open spec fn little_endian_value(bytes: Seq<u8>) -> int {
    bytes[0] + bytes[1] * 0x100 + bytes[2] * 0x1_0000 + bytes[3] * 0x100_0000
}

/// The error code that a message of four bytes carries, in the given byte
/// order.
pub open spec fn message_code(order: Endian, bytes: Seq<u8>) -> i32 {
    match order {
        Endian::Little => signed(little_endian_value(bytes)),
        Endian::Big => signed(little_endian_value(bytes.reverse())),
    }
}

/// `i32::to_ne_bytes` gives the bytes of the number in the byte order of the
/// machine.
#[verifier::external_body]
fn to_ne_bytes(code: i32) -> (bytes: [u8; 4])
    ensures
        bytes@ == message(endianness(), code),
{
    code.to_ne_bytes()
}

/// `i32::from_ne_bytes` reads a number from its bytes in the byte order of
/// the machine.
#[verifier::external_body]
fn from_ne_bytes(bytes: [u8; 4]) -> (code: i32)
    ensures
        code == message_code(endianness(), bytes@),
{
    i32::from_ne_bytes(bytes)
}

/// The message by which the child reports that it failed with `code`.
pub fn encode(code: i32) -> (bytes: [u8; 4])
    ensures
        bytes@ == message(endianness(), code),
{
    to_ne_bytes(code)
}

/// The error code that a message carries.
pub fn decode(bytes: [u8; 4]) -> (code: i32)
    ensures
        code == message_code(endianness(), bytes@),
{
    from_ne_bytes(bytes)
}

/// A message carries the error code that it was made from, whatever the
/// byte order.
pub proof fn lemma_message_round_trip(order: Endian, code: i32)
    ensures
        message(order, code).len() == 4,
        message_code(order, message(order, code)) == code,
{
    let le = little_endian(code);
    assert(le.reverse().reverse() =~= le);
    assert(little_endian_value(le) == unsigned(code));
}

/// What the parent learns from the error channel.
#[derive(Clone, Copy, Debug, PartialEq, Eq, Structural)]
pub enum Verdict {
    /// The channel was closed with nothing in it: the program runs.
    Started,
    /// A whole message came: the program could not be executed.
    Failed(i32),
    /// The channel was closed in the middle of a message.
    Broken,
}

/// What follows from the bytes that had been read from the error channel
/// when it was closed or the message was complete. Anything but nothing and
/// a whole message is a part of a message, or more than the child ever
/// writes.
pub open spec fn verdict_of(order: Endian, received: Seq<u8>) -> Verdict {
    if received.len() == 0 {
        Verdict::Started
    } else if received.len() == 4 {
        Verdict::Failed(message_code(order, received))
    } else {
        Verdict::Broken
    }
}

/// Judges the launch by what the error channel held: nothing, a whole
/// message, or a part of one.
pub fn verdict(received: &[u8]) -> (v: Verdict)
    ensures
        v == verdict_of(endianness(), received@),
{
    if received.len() == 0 {
        Verdict::Started
    } else if received.len() == 4 {
        let bytes: [u8; 4] = [received[0], received[1], received[2], received[3]];
        assert(bytes@ =~= received@);
        Verdict::Failed(decode(bytes))
    } else {
        Verdict::Broken
    }
}

} // verus!
