//! Log levels and the naming of log files.

use vstd::prelude::*;

use crate::frontend::config::Config;
use crate::text::{digit_char, int_decimal, nat_digits, padded_decimal, push_padded, push_zero_filled, zero_pad};

verus! {

/// How much the application writes to its log.
#[derive(Debug, Clone, Copy, PartialEq, Eq, Structural)]
pub enum LogLevel {
    Off,
    Error,
    Warn,
    Info,
    Debug,
    Trace,
}

impl Default for LogLevel {
    /// Logging is off unless configured.
    fn default() -> (l: Self)
        ensures
            l == LogLevel::Off,
    {
        LogLevel::Off
    }
}

/// The name of the log file of a day: `YYYY-DD-MM.log`, the year written
/// with at least four digits and the day and month with two each.
pub open spec fn log_file_name_text(year: int, month: int, day: int) -> Seq<char> {
    padded_decimal(year, 4) + "-"@ + padded_decimal(day, 2) + "-"@ + padded_decimal(month, 2) + ".log"@
}

/// A line of the log: `[YYYY-MM-DD HH:MM LEVEL] message`, each number
/// filled with zeros in front to at least two characters.
pub open spec fn log_line_text(
    year: int,
    month: int,
    day: int,
    hour: int,
    minute: int,
    level: Seq<char>,
    message: Seq<char>,
) -> Seq<char> {
    "["@ + zero_pad(int_decimal(year), 2) + "-"@ + zero_pad(int_decimal(month), 2) + "-"@ + zero_pad(
        int_decimal(day),
        2,
    ) + " "@ + zero_pad(int_decimal(hour), 2) + ":"@ + zero_pad(int_decimal(minute), 2) + " "@ + level + "] "@
        + message
}

/// The two decimal digits of `v`, for `0 <= v < 100`.
pub open spec fn two_digits(v: int) -> Seq<char> {
    seq![digit_char(v / 10), digit_char(v % 10)]
}

proof fn lemma_two_digits(v: int)
    requires
        0 <= v < 100,
    ensures
        zero_pad(int_decimal(v), 2) == two_digits(v),
        padded_decimal(v, 2) == two_digits(v),
{
    if v < 10 {
        assert(nat_digits(v as nat) == seq![digit_char(v)]);
        assert(zero_pad(nat_digits(v as nat), 2) =~= two_digits(v));
    } else {
        assert(nat_digits((v / 10) as nat) == seq![digit_char(v / 10)]);
        assert(nat_digits(v as nat) =~= two_digits(v));
    }
}

proof fn lemma_four_digits(y: int)
    requires
        1000 <= y <= 9999,
    ensures
        nat_digits(y as nat).len() == 4,
        zero_pad(int_decimal(y), 2) == nat_digits(y as nat),
        padded_decimal(y, 4) == nat_digits(y as nat),
{
    assert(nat_digits((y / 1000) as nat).len() == 1);
    assert(y / 10 / 10 / 10 == y / 1000);
    assert(nat_digits((y / 100) as nat).len() == 2);
    assert(nat_digits((y / 10) as nat).len() == 3);
}

/// For a date whose year has four digits, the log file is named
/// `YYYY-DD-MM.log`: the year, then the day, then the month, the day and
/// the month in two digits each, `0` in front where needed.
pub proof fn lemma_log_file_name(year: int, month: int, day: int)
    requires
        1000 <= year <= 9999,
        0 <= month < 100,
        0 <= day < 100,
    ensures
        log_file_name_text(year, month, day) == nat_digits(year as nat) + "-"@ + two_digits(day) + "-"@
            + two_digits(month) + ".log"@,
{
    lemma_four_digits(year);
    lemma_two_digits(month);
    lemma_two_digits(day);
}

/// For a time whose year has four digits, a log line starts with
/// `[YYYY-MM-DD HH:MM LEVEL] `: the year, the month, the day, the hour and
/// the minute, each but the year in two digits, `0` in front where needed;
/// the message follows.
pub proof fn lemma_log_line(
    year: int,
    month: int,
    day: int,
    hour: int,
    minute: int,
    level: Seq<char>,
    message: Seq<char>,
)
    requires
        1000 <= year <= 9999,
        0 <= month < 100,
        0 <= day < 100,
        0 <= hour < 100,
        0 <= minute < 100,
    ensures
        log_line_text(year, month, day, hour, minute, level, message) == "["@ + nat_digits(year as nat) + "-"@
            + two_digits(month) + "-"@ + two_digits(day) + " "@ + two_digits(hour) + ":"@ + two_digits(minute)
            + " "@ + level + "] "@ + message,
{
    lemma_four_digits(year);
    lemma_two_digits(month);
    lemma_two_digits(day);
    lemma_two_digits(hour);
    lemma_two_digits(minute);
}

/// The logging set-up of the application.
pub struct Logger {
    log_level: LogLevel,
}

impl Logger {
    /// The level the logger writes at.
    pub closed spec fn level(&self) -> LogLevel {
        self.log_level
    }

    /// The logger for a configuration.
    pub fn from_config(config: &Config) -> (l: Logger)
        ensures
            l.level() == config.log_level,
    {
        Logger { log_level: config.log_level }
    }

    /// The level the logger writes at.
    pub fn log_level(&self) -> (l: LogLevel)
        ensures
            l == self.level(),
    {
        self.log_level
    }

    /// Whether anything is logged at all; with logging off no log file is
    /// set up.
    pub fn is_enabled(&self) -> (b: bool)
        ensures
            b == (self.level() != LogLevel::Off),
    {
        self.log_level != LogLevel::Off
    }

    /// The name of the log file for a date.
    pub fn file_name_for(year: i32, month: u32, day: u32) -> (name: String)
        ensures
            name@ == log_file_name_text(year as int, month as int, day as int),
    {
        let mut out = String::new();
        push_padded(&mut out, year as i64, 4);
        out.append("-");
        push_padded(&mut out, day as i64, 2);
        out.append("-");
        push_padded(&mut out, month as i64, 2);
        out.append(".log");
        out
    }

    /// A line of the log (see `log_line_text`).
    pub fn format_line(
        year: i32,
        month: u32,
        day: u32,
        hour: u32,
        minute: u32,
        level: &str,
        message: &str,
    ) -> (line: String)
        ensures
            line@ == log_line_text(
                year as int,
                month as int,
                day as int,
                hour as int,
                minute as int,
                level@,
                message@,
            ),
    {
        let mut out = String::from_str("[");
        push_zero_filled(&mut out, year as i64, 2);
        out.append("-");
        push_zero_filled(&mut out, month as i64, 2);
        out.append("-");
        push_zero_filled(&mut out, day as i64, 2);
        out.append(" ");
        push_zero_filled(&mut out, hour as i64, 2);
        out.append(":");
        push_zero_filled(&mut out, minute as i64, 2);
        out.append(" ");
        out.append(level);
        out.append("] ");
        out.append(message);
        out
    }
}

} // verus!
