//! The lines of the bot's journal: when, how grave, what. The library
//! composes them; printing them is the caller's.

use crate::clock::{reading_of, LocalInstant, Reading};
use vstd::prelude::*;
use vstd::string::StringExecFns;

verus! {

/// How the journal writes an instant: day, month, year, then the time.
pub const FRENCH_TIME_FORMAT: &'static str = "%d/%m/%Y à %Hh%Mm%Ss";

/// The character of a decimal digit.
pub open spec fn digit(n: int) -> char {
    ((48 + n) as u8) as char
}

/// `n` in two decimal digits, for `n` below 100.
pub open spec fn two_digits(n: int) -> Seq<char> {
    seq![digit(n / 10), digit(n % 10)]
}

/// `n` in four decimal digits, for `n` below 10000.
pub open spec fn four_digits(n: int) -> Seq<char> {
    two_digits(n / 100) + two_digits(n % 100)
}

/// An instant as the journal writes it, such as `09/03/2024 à 07h00m05s`.
pub open spec fn french_time(at: Reading) -> Seq<char> {
    two_digits(at.day) + seq!['/'] + two_digits(at.month) + seq!['/'] + four_digits(at.year)
        + seq![' ', 'à', ' '] + two_digits(at.hour) + seq!['h'] + two_digits(at.minute)
        + seq!['m'] + two_digits(at.second) + seq!['s']
}

/// `n` in decimal digits, as many as it takes.
pub open spec fn decimal(n: nat) -> Seq<char>
    decreases n,
{
    if n < 10 {
        seq![digit(n as int)]
    } else {
        decimal(n / 10) + seq![digit((n % 10) as int)]
    }
}

/// The digit `d` as a string.
fn digit_str(d: u8) -> (s: &'static str)
    requires
        d <= 9,
    ensures
        s@ == seq![digit(d as int)],
{
    proof {
        reveal_strlit("0");
        reveal_strlit("1");
        reveal_strlit("2");
        reveal_strlit("3");
        reveal_strlit("4");
        reveal_strlit("5");
        reveal_strlit("6");
        reveal_strlit("7");
        reveal_strlit("8");
        reveal_strlit("9");
    }
    let s = match d {
        0 => "0",
        1 => "1",
        2 => "2",
        3 => "3",
        4 => "4",
        5 => "5",
        6 => "6",
        7 => "7",
        8 => "8",
        _ => "9",
    };
    assert(s@ =~= seq![digit(d as int)]);
    s
}

/// Writes `n` in decimal digits at the end of `text`.
pub fn push_decimal(text: &mut String, n: u64)
    ensures
        final(text)@ == old(text)@ + decimal(n as nat),
    decreases n,
{
    if n >= 10 {
        push_decimal(text, n / 10);
    }
    text.append(digit_str((n % 10) as u8));
    assert(text@ =~= old(text)@ + decimal(n as nat));
}

/// How grave a line of the journal is.
#[derive(Clone, Copy, Debug, PartialEq, Eq, Structural)]
pub enum Level {
    Info,
    Error,
    Warn,
    Debug,
}

impl Level {
    pub open spec fn tag(self) -> Seq<char> {
        match self {
            Level::Info => " INFO - "@,
            Level::Error => " ERROR - "@,
            Level::Warn => " WARN - "@,
            Level::Debug => " DEBUG - "@,
        }
    }

    /// Whether lines of this level belong on the error stream.
    pub open spec fn spec_is_grave(self) -> bool {
        self == Level::Error || self == Level::Warn
    }

    #[verifier::when_used_as_spec(spec_is_grave)]
    pub fn is_grave(self) -> (grave: bool)
        ensures
            grave == self.spec_is_grave(),
    {
        match self {
            Level::Error => true,
            Level::Warn => true,
            _ => false,
        }
    }
}

/// A line of the journal: the instant, the level between spaces and a dash,
/// the message.
pub open spec fn log_line(at: Reading, level: Level, message: Seq<char>) -> Seq<char> {
    french_time(at) + level.tag() + message
}

/// Calls `chrono::NaiveDateTime::format` with `FRENCH_TIME_FORMAT` on the
/// instant that `chrono::NaiveDate::from_ymd_opt` and `and_hms_opt` make of
/// the arguments. Trusted: for a second of a day of the calendar in a year
/// of four digits, chrono writes `%d`, `%m`, `%H`, `%M` and `%S` in two
/// digits and `%Y` in four, each padded with zeros, and the rest of the
/// format as it stands.
#[verifier::external_body]
fn format_french(year: i32, month: u32, day: u32, hour: u32, minute: u32, second: u32) -> (text: Option<String>)
    ensures
        reading_of(year, month, day, hour, minute, second).valid() ==> text is Some && text->0@
            == french_time(reading_of(year, month, day, hour, minute, second)),
{
    let at = chrono::NaiveDate::from_ymd_opt(year, month, day)?.and_hms_opt(hour, minute, second)?;
    Some(at.format(FRENCH_TIME_FORMAT).to_string())
}

/// Writes an instant as the journal does.
pub fn french_time_of(at: &LocalInstant) -> (text: String)
    ensures
        text@ == french_time(at@),
{
    match format_french(at.year(), at.month(), at.day(), at.hour(), at.minute(), at.second()) {
        Some(text) => text,
        None => String::new(),
    }
}

/// Composes a line of the journal.
pub fn compose(at: &LocalInstant, level: Level, message: &str) -> (line: String)
    ensures
        line@ == log_line(at@, level, message@),
{
    let mut line = french_time_of(at);
    let tag = match level {
        Level::Info => " INFO - ",
        Level::Error => " ERROR - ",
        Level::Warn => " WARN - ",
        Level::Debug => " DEBUG - ",
    };
    line.append(tag);
    line.append(message);
    line
}

/// A journal: one function for each level. Each returns the line for the
/// caller to print: `info` and `debug` belong on the output stream, `error`
/// and `warn` on the error stream.
pub trait MiraiLog {
    fn info(at: &LocalInstant, l: String) -> (line: String)
        ensures
            line@ == log_line(at@, Level::Info, l@),
    ;

    fn error(at: &LocalInstant, l: String) -> (line: String)
        ensures
            line@ == log_line(at@, Level::Error, l@),
    ;

    fn warn(at: &LocalInstant, l: String) -> (line: String)
        ensures
            line@ == log_line(at@, Level::Warn, l@),
    ;

    fn debug(at: &LocalInstant, l: String) -> (line: String)
        ensures
            line@ == log_line(at@, Level::Debug, l@),
    ;
}

/// The journal of the bot.
pub struct MiraiLogger;

impl MiraiLog for MiraiLogger {
    fn info(at: &LocalInstant, l: String) -> (line: String) {
        compose(at, Level::Info, l.as_str())
    }

    fn error(at: &LocalInstant, l: String) -> (line: String) {
        compose(at, Level::Error, l.as_str())
    }

    fn warn(at: &LocalInstant, l: String) -> (line: String) {
        compose(at, Level::Warn, l.as_str())
    }

    fn debug(at: &LocalInstant, l: String) -> (line: String) {
        compose(at, Level::Debug, l.as_str())
    }
}

} // verus!
