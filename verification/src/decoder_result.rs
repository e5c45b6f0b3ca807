//! Classification of what one decode call produced.

use vstd::prelude::*;

verus! {

/// Outcome of one decode call.
#[derive(Clone, Copy, Debug, PartialEq, Eq, PartialOrd, Ord, Structural)]
pub enum DecoderResult {
    /// The trace was consumed.
    Success,
    /// The trace was consumed, but the engine's buffering saturated.
    SuccessPtOverflow,
    /// The engine asked for a page that could not be supplied.
    PageFault,
    /// The trace is malformed.
    Error,
    /// The trace holds a packet the engine does not support.
    UnknownPacket,
}

/// The outcome that a result code of the engine stands for, if any.
pub open spec fn from_code(value: u32) -> Option<DecoderResult> {
    if value == 0 {
        Some(DecoderResult::Success)
    } else if value == 1 {
        Some(DecoderResult::SuccessPtOverflow)
    } else if value == 2 {
        Some(DecoderResult::PageFault)
    } else if value == 3 {
        Some(DecoderResult::Error)
    } else if value == 4 {
        Some(DecoderResult::UnknownPacket)
    } else {
        None
    }
}

/// The character of a decimal digit.
pub open spec fn digit(d: nat) -> char {
    if d == 0 {
        '0'
    } else if d == 1 {
        '1'
    } else if d == 2 {
        '2'
    } else if d == 3 {
        '3'
    } else if d == 4 {
        '4'
    } else if d == 5 {
        '5'
    } else if d == 6 {
        '6'
    } else if d == 7 {
        '7'
    } else if d == 8 {
        '8'
    } else {
        '9'
    }
}

/// A number written in decimal, without leading zeros.
pub open spec fn decimal(n: nat) -> Seq<char>
    decreases n,
{
    if n < 10 {
        seq![digit(n)]
    } else {
        decimal(n / 10).push(digit(n % 10))
    }
}

/// The message that refuses a result code.
pub open spec fn unknown_code_text(value: u32) -> Seq<char> {
    "Unknown DecoderResult: "@ + decimal(value as nat)
}

/// `String::push` appends one character to the end of the string.
pub assume_specification[ String::push ](s: &mut String, ch: char)
    ensures
        final(s)@ == old(s)@.push(ch),
;

fn digit_char(d: u32) -> (c: char)
    requires
        d < 10,
    ensures
        c == digit(d as nat),
{
    if d == 0 {
        '0'
    } else if d == 1 {
        '1'
    } else if d == 2 {
        '2'
    } else if d == 3 {
        '3'
    } else if d == 4 {
        '4'
    } else if d == 5 {
        '5'
    } else if d == 6 {
        '6'
    } else if d == 7 {
        '7'
    } else if d == 8 {
        '8'
    } else {
        '9'
    }
}

fn push_decimal(s: &mut String, n: u32)
    ensures
        final(s)@ == old(s)@ + decimal(n as nat),
    decreases n,
{
    if n >= 10 {
        push_decimal(s, n / 10);
    }
    s.push(digit_char(n % 10));
    assert(s@ =~= old(s)@ + decimal(n as nat));
}

/// Writes the message that refuses a result code.
pub fn unknown_code_message(value: u32) -> (message: String)
    ensures
        message@ == unknown_code_text(value),
{
    let mut message: String = "Unknown DecoderResult: ".to_owned();
    push_decimal(&mut message, value);
    message
}

impl DecoderResult {
    /// The engine's result code of this outcome.
    pub open spec fn code(self) -> u32 {
        match self {
            DecoderResult::Success => 0,
            DecoderResult::SuccessPtOverflow => 1,
            DecoderResult::PageFault => 2,
            DecoderResult::Error => 3,
            DecoderResult::UnknownPacket => 4,
        }
    }

    /// The engine's result code of this outcome.
    pub fn to_code(self) -> (c: u32)
        ensures
            c == self.code(),
            from_code(c) == Some(self),
    {
        match self {
            DecoderResult::Success => 0,
            DecoderResult::SuccessPtOverflow => 1,
            DecoderResult::PageFault => 2,
            DecoderResult::Error => 3,
            DecoderResult::UnknownPacket => 4,
        }
    }

    /// Reads a result code of the engine. Codes 0 to 4 are the five outcomes;
    /// every other code is refused with a message that names it.
    pub fn try_from(value: u32) -> (r: Result<DecoderResult, String>)
        ensures
            match r {
                Ok(d) => from_code(value) == Some(d) && d.code() == value,
                Err(message) => from_code(value).is_none() && value > 4 && message@
                    == unknown_code_text(value),
            },
    {
        match value {
            0 => Ok(DecoderResult::Success),
            1 => Ok(DecoderResult::SuccessPtOverflow),
            2 => Ok(DecoderResult::PageFault),
            3 => Ok(DecoderResult::Error),
            4 => Ok(DecoderResult::UnknownPacket),
            _ => Err(unknown_code_message(value)),
        }
    }
}

/// Every outcome is read back from its own code, and no two outcomes share one.
pub proof fn lemma_code_round_trip(d: DecoderResult, e: DecoderResult)
    ensures
        from_code(d.code()) == Some(d),
        d.code() <= 4,
        d.code() == e.code() ==> d == e,
{
}

} // verus!
