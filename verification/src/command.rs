//! The wire format: one byte, an ASCII letter in either case.

use vstd::prelude::*;

verus! {

/// One of the three dimmable outputs.
#[derive(Clone, Copy, Debug, PartialEq, Eq, Structural)]
pub enum Channel {
    Red,
    Green,
    Blue,
}

/// What one inbound message asks for.
#[derive(Clone, Copy, Debug, PartialEq, Eq, Structural)]
pub enum Command {
    /// Raise the duty of one dimmable output by one step.
    IncrementChannel(Channel),
    /// Flip the on/off output.
    ToggleOutput,
    /// Nothing: the payload is not a command.
    NoOp,
}

/// ASCII `A`.
pub const UPPER_A: u8 = 65;

/// ASCII `Z`.
pub const UPPER_Z: u8 = 90;

/// ASCII `B`.
pub const LETTER_B: u8 = 66;

/// ASCII `G`.
pub const LETTER_G: u8 = 71;

/// ASCII `R`.
pub const LETTER_R: u8 = 82;

/// ASCII `W`.
pub const LETTER_W: u8 = 87;

/// Distance from an upper-case ASCII letter to its lower-case form.
pub const CASE_OFFSET: u8 = 32;

/// The byte with a lower-case ASCII letter replaced by its upper-case form.
pub open spec fn upper(b: u8) -> u8 {
    if UPPER_A + CASE_OFFSET <= b <= UPPER_Z + CASE_OFFSET {
        (b - CASE_OFFSET) as u8
    } else {
        b
    }
}

/// The bytes that stand for a command: `R`, `G`, `B`, `W` and their
/// lower-case forms.
pub open spec fn is_recognized(b: u8) -> bool {
    let u = upper(b);
    u == LETTER_R || u == LETTER_G || u == LETTER_B || u == LETTER_W
}

/// The command that a one-byte payload stands for.
pub open spec fn command_of_byte(b: u8) -> Command {
    let u = upper(b);
    if u == LETTER_R {
        Command::IncrementChannel(Channel::Red)
    } else if u == LETTER_G {
        Command::IncrementChannel(Channel::Green)
    } else if u == LETTER_B {
        Command::IncrementChannel(Channel::Blue)
    } else if u == LETTER_W {
        Command::ToggleOutput
    } else {
        Command::NoOp
    }
}

/// The command that a payload stands for: only a payload of exactly one
/// byte can be one.
pub open spec fn decode_spec(payload: Seq<u8>) -> Command {
    if payload.len() == 1 {
        command_of_byte(payload[0])
    } else {
        Command::NoOp
    }
}

/// Decodes a payload of any length. Never fails: what is not a command is
/// `NoOp`.
pub fn decode(payload: &[u8]) -> (cmd: Command)
    ensures
        cmd == decode_spec(payload@),
        payload@.len() != 1 ==> cmd == Command::NoOp,
        payload@.len() == 1 && !is_recognized(payload@[0]) ==> cmd == Command::NoOp,
        payload@.len() == 1 && is_recognized(payload@[0]) ==> cmd != Command::NoOp,
{
    if payload.len() != 1 {
        return Command::NoOp;
    }
    match payload[0] {
        // R, r
        82 | 114 => Command::IncrementChannel(Channel::Red),
        // G, g
        71 | 103 => Command::IncrementChannel(Channel::Green),
        // B, b
        66 | 98 => Command::IncrementChannel(Channel::Blue),
        // W, w
        87 | 119 => Command::ToggleOutput,
        _ => Command::NoOp,
    }
}

/// The other case of an ASCII letter; any other byte as it is.
pub open spec fn swap_case(b: u8) -> u8 {
    if UPPER_A <= b <= UPPER_Z {
        (b + CASE_OFFSET) as u8
    } else if UPPER_A + CASE_OFFSET <= b <= UPPER_Z + CASE_OFFSET {
        (b - CASE_OFFSET) as u8
    } else {
        b
    }
}

/// Decoding does not tell the two cases of a letter apart.
pub proof fn lemma_decode_ignores_case(b: u8)
    ensures
        command_of_byte(swap_case(b)) == command_of_byte(b),
        decode_spec(seq![swap_case(b)]) == decode_spec(seq![b]),
{
}

/// A payload is a command exactly when it is one recognized byte.
pub proof fn lemma_decode_total(payload: Seq<u8>)
    ensures
        decode_spec(payload) != Command::NoOp <==> payload.len() == 1 && is_recognized(payload[0]),
{
}

} // verus!
