//! Record formatting. One record becomes one line of the fixed shape
//! `[<timestamp>]<LEVEL>[<target>:<line>] <message>`; downstream tooling
//! may parse these lines, so the field order and the delimiter characters
//! are part of the contract.

use vstd::prelude::*;
use vstd::string::StringExecFns;

use crate::level::{tag_spec, LogLevel};

verus! {

/// One log record as handed to the facility: a severity, the name of the
/// emitting target (usually a module path), an optional source line, and
/// the message text.
pub struct Record {
    pub level: LogLevel,
    pub target: String,
    pub line: Option<u32>,
    pub message: String,
}

/// A record with an unknown source line is formatted with line number 0.
pub open spec fn line_or_zero(line: Option<u32>) -> u32 {
    match line {
        Some(l) => l,
        None => 0,
    }
}

/// The decimal digit characters.
pub open spec fn digit_char(d: int) -> char {
    if d == 0 {
        '0'
    } else if d == 1 {
        '1'
    } else if d == 2 {
        '2'
    } else if d == 3 {
        '3'
    } else if d == 4 {
        '4'
    } else if d == 5 {
        '5'
    } else if d == 6 {
        '6'
    } else if d == 7 {
        '7'
    } else if d == 8 {
        '8'
    } else {
        '9'
    }
}

/// The usual decimal rendering of a number: no leading zeros, except that
/// zero itself is the single digit `0`.
pub open spec fn dec_seq(n: nat) -> Seq<char>
    decreases n,
{
    if n < 10 {
        seq![digit_char(n as int)]
    } else {
        dec_seq(n / 10) + seq![digit_char((n % 10) as int)]
    }
}

fn digit_str(d: u32) -> (r: &'static str)
    requires
        d < 10,
    ensures
        r@ == seq![digit_char(d as int)],
{
    proof {
        reveal_strlit("0");
        reveal_strlit("1");
        reveal_strlit("2");
        reveal_strlit("3");
        reveal_strlit("4");
        reveal_strlit("5");
        reveal_strlit("6");
        reveal_strlit("7");
        reveal_strlit("8");
        reveal_strlit("9");
    }
    let r: &'static str = if d == 0 {
        "0"
    } else if d == 1 {
        "1"
    } else if d == 2 {
        "2"
    } else if d == 3 {
        "3"
    } else if d == 4 {
        "4"
    } else if d == 5 {
        "5"
    } else if d == 6 {
        "6"
    } else if d == 7 {
        "7"
    } else if d == 8 {
        "8"
    } else {
        "9"
    };
    proof {
        assert(r@ =~= seq![digit_char(d as int)]);
    }
    r
}

/// Render a number in decimal.
pub fn u32_decimal(n: u32) -> (r: String)
    ensures
        r@ == dec_seq(n as nat),
    decreases n,
{
    if n < 10 {
        String::from_str(digit_str(n))
    } else {
        let mut s = u32_decimal(n / 10);
        s.append(digit_str(n % 10));
        s
    }
}

/// The full formatted line for one record, given the timestamp text.
pub open spec fn formatted(
    ts: Seq<char>,
    level: LogLevel,
    target: Seq<char>,
    line: u32,
    message: Seq<char>,
) -> Seq<char> {
    "["@ + ts + "]<"@ + tag_spec(level) + ">["@ + target + ":"@ + dec_seq(line as nat) + "] "@
        + message
}

/// Format one record against the given timestamp text.
pub fn format_record(timestamp: &str, record: &Record) -> (r: String)
    ensures
        r@ == formatted(
            timestamp@,
            record.level,
            record.target@,
            line_or_zero(record.line),
            record.message@,
        ),
{
    let line: u32 = match record.line {
        Some(l) => l,
        None => 0,
    };
    let mut s = String::from_str("[");
    s.append(timestamp);
    s.append("]<");
    s.append(record.level.tag());
    s.append(">[");
    s.append(record.target.as_str());
    s.append(":");
    let digits = u32_decimal(line);
    s.append(digits.as_str());
    s.append("] ");
    s.append(record.message.as_str());
    proof {
        assert(s@ =~= formatted(
            timestamp@,
            record.level,
            record.target@,
            line_or_zero(record.line),
            record.message@,
        ));
    }
    s
}

} // verus!
