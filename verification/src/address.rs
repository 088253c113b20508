//! Server addresses: escaping of paths, and the address that a daemon
//! announces.

use crate::error::Error;
use crate::xml::push_char;
use vstd::prelude::*;
use vstd::std_specs::iter::IteratorSpec;
use vstd::string::*;

verus! {

/// The bytes that stand for themselves in an address: `-`, digits, letters,
/// `_`, `/`, `.` and `\`.
pub open spec fn is_unreserved(b: u8) -> bool {
    ||| b == 0x2d
    ||| 0x30 <= b <= 0x39
    ||| 0x41 <= b <= 0x5a
    ||| 0x61 <= b <= 0x7a
    ||| b == 0x5f
    ||| b == 0x2f
    ||| b == 0x2e
    ||| b == 0x5c
}

/// The lower-case hexadecimal digit for a value below 16.
pub open spec fn hex_digit(n: u8) -> char {
    if n < 10 {
        (0x30 + n) as u8 as char
    } else {
        (0x57 + n) as u8 as char
    }
}

/// One byte of a path in an address: itself if it is unreserved, else `%`
/// and its value in hexadecimal, two characters wide. A value below 0x10 has
/// one digit and is padded with a space on the left.
pub open spec fn escaped_byte(b: u8) -> Seq<char> {
    if is_unreserved(b) {
        seq![b as char]
    } else if b < 0x10 {
        seq!['%', ' ', hex_digit(b)]
    } else {
        seq!['%', hex_digit(b / 16), hex_digit(b % 16)]
    }
}

/// A path as it is written in an address.
pub open spec fn escaped_path(path: Seq<u8>) -> Seq<char>
    decreases path.len(),
{
    if path.len() == 0 {
        Seq::empty()
    } else {
        escaped_path(path.drop_last()) + escaped_byte(path.last())
    }
}

fn hex_digit_char(n: u8) -> (c: char)
    requires
        n < 16,
    ensures
        c == hex_digit(n),
{
    if n < 10 {
        (0x30 + n) as char
    } else {
        (0x57 + n) as char
    }
}

/// Escapes a path for use in a server address.
pub fn escape_path(path: &[u8]) -> (escaped: String)
    ensures
        escaped@ == escaped_path(path@),
{
    let mut escaped = String::new();
    for i in 0..path.len()
        invariant
            escaped@ == escaped_path(path@.take(i as int)),
    {
        let b = path[i];
        proof {
            assert(path@.take(i + 1).drop_last() =~= path@.take(i as int));
        }
        if b == 0x2d || (0x30 <= b && b <= 0x39) || (0x41 <= b && b <= 0x5a) || (0x61 <= b && b
            <= 0x7a) || b == 0x5f || b == 0x2f || b == 0x2e || b == 0x5c {
            push_char(&mut escaped, b as char);
        } else {
            push_char(&mut escaped, '%');
            if b < 0x10 {
                push_char(&mut escaped, ' ');
            } else {
                push_char(&mut escaped, hex_digit_char(b / 16));
            }
            push_char(&mut escaped, hex_digit_char(b % 16));
        }
        assert(escaped@ =~= escaped_path(path@.take(i as int)) + escaped_byte(b));
    }
    assert(path@.take(path.len() as int) =~= path@);
    escaped
}

/// Whether a character is white space, as Unicode defines it.
pub uninterp spec fn white_space(c: char) -> bool;

/// `char::is_whitespace` says whether the character has the Unicode
/// property White_Space.
#[verifier::external_body]
fn is_whitespace(c: char) -> (b: bool)
    ensures
        b == white_space(c),
{
    c.is_whitespace()
}

/// A text without the white space that it begins with.
pub open spec fn trim_start(text: Seq<char>) -> Seq<char>
    decreases text.len(),
{
    if text.len() > 0 && white_space(text.first()) {
        trim_start(text.drop_first())
    } else {
        text
    }
}

/// A text without the white space that it ends with.
pub open spec fn trim_end(text: Seq<char>) -> Seq<char>
    decreases text.len(),
{
    if text.len() > 0 && white_space(text.last()) {
        trim_end(text.drop_last())
    } else {
        text
    }
}

/// A text without the white space around it.
pub open spec fn trimmed(text: Seq<char>) -> Seq<char> {
    trim_end(trim_start(text))
}

/// What a character at the end adds to a text that is trimmed at the
/// start.
proof fn lemma_trim_start_push(text: Seq<char>, c: char)
    ensures
        trim_start(text.push(c)) == if trim_start(text).len() > 0 || !white_space(c) {
            trim_start(text).push(c)
        } else {
            Seq::empty()
        },
    decreases text.len(),
{
    if text.len() == 0 {
        let one = text.push(c);
        assert(one.first() == c);
        assert(one.drop_first() =~= Seq::<char>::empty());
        assert(trim_start(Seq::<char>::empty()) =~= Seq::<char>::empty());
        assert(trim_start(text) =~= Seq::<char>::empty());
    } else {
        assert(text.push(c).first() == text.first());
        assert(text.push(c).drop_first() =~= text.drop_first().push(c));
        if white_space(text.first()) {
            lemma_trim_start_push(text.drop_first(), c);
        }
    }
}

/// The text without the white space around it.
pub fn trim(text: &str) -> (result: String)
    ensures
        result@ == trimmed(text@),
{
    let mut result = String::new();
    // White space that belongs to the result if anything follows it.
    let mut spaces = String::new();
    let mut started = false;
    let ghost mut done: Seq<char> = Seq::empty();
    let mut rest = text.chars();
    proof {
        broadcast use vstd::string::group_string_axioms;
    }
    loop
        invariant
            rest.decrease() is Some,
            done + rest.remaining() == text@,
            result@ + spaces@ == trim_start(done),
            result@ == trim_end(trim_start(done)),
            started == (result@.len() > 0),
            !started ==> spaces@.len() == 0,
        ensures
            result@ == trimmed(text@),
        decreases rest.decrease()->0,
    {
        match rest.next() {
            Some(c) => {
                proof {
                    lemma_trim_start_push(done, c);
                    assert(done.push(c) + rest.remaining() =~= text@);
                    assert(trim_start(done).push(c).drop_last() =~= trim_start(done));
                }
                let ghost before = result@ + spaces@;
                if is_whitespace(c) {
                    if started {
                        push_char(&mut spaces, c);
                        proof {
                            assert(result@ + spaces@ =~= before.push(c));
                        }
                    }
                } else {
                    result.append(spaces.as_str());
                    push_char(&mut result, c);
                    spaces = String::new();
                    started = true;
                    proof {
                        assert(result@ + spaces@ =~= before.push(c));
                        assert(result@ =~= before.push(c));
                    }
                }
                proof {
                    done = done.push(c);
                }
            },
            None => {
                assert(done =~= text@);
                break ;
            },
        }
    }
    result
}

/// The address that a daemon has announced: an address is never empty.
pub fn check_address(address: String) -> (result: Result<String, Error>)
    ensures
        result == if address@.len() == 0 {
            Err::<String, Error>(Error::EmptyResult)
        } else {
            Ok(address)
        },
{
    if address.as_str().is_empty() {
        Err(Error::EmptyResult)
    } else {
        Ok(address)
    }
}

/// The address in what a daemon has printed to the hand-off slot: the
/// output without the white space around it. If nothing is left the daemon
/// has announced no address.
pub fn announced_address(output: &str) -> (result: Result<String, Error>)
    ensures
        match result {
            Ok(address) => address@ == trimmed(output@) && address@.len() > 0,
            Err(e) => e == Error::EmptyResult && trimmed(output@).len() == 0,
        },
{
    check_address(trim(output))
}

} // verus!
