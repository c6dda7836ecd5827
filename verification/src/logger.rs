//! The logger: a handle that is made once and handed to whoever logs.
//!
//! A line reads `[<seconds>] (<LEVEL>) <message>`, with the seconds since
//! the logger was made, to five decimal places, at the right end of a field
//! of fifteen characters, and the level at the left end of a field of seven.

use crate::clock::precise_time_ns;
use crate::seconds::{lemma_ticks_monotonic, ticks, ticks_of, TICKS_PER_SECOND};
use crate::text::{
    decimal,
    fixed,
    pad_left,
    pad_right,
    push_decimal,
    push_fixed,
    push_padded_left,
    push_padded_right,
};
use vstd::prelude::*;
use vstd::string::*;

verus! {

/// Width of the field that holds the seconds.
pub const STAMP_WIDTH: usize = 15;

/// Decimal places of the seconds.
pub const STAMP_PLACES: u8 = 5;

/// Width of the field that holds the level.
pub const LEVEL_WIDTH: usize = 7;

/// How grave a message is, from the gravest to the least.
#[derive(Clone, Copy, Debug, PartialEq, Eq, Structural)]
pub enum Level {
    Error,
    Warn,
    Info,
    Debug,
    Trace,
}

impl Level {
    /// The place of the level in the order: 1 for `Error`, 5 for `Trace`.
    pub open spec fn rank(self) -> nat {
        match self {
            Level::Error => 1,
            Level::Warn => 2,
            Level::Info => 3,
            Level::Debug => 4,
            Level::Trace => 5,
        }
    }

    /// The level as a line names it.
    pub open spec fn name(self) -> Seq<char> {
        match self {
            Level::Error => "ERROR"@,
            Level::Warn => "WARN"@,
            Level::Info => "INFO"@,
            Level::Debug => "DEBUG"@,
            Level::Trace => "TRACE"@,
        }
    }

    /// The name in its brackets.
    pub open spec fn tag(self) -> Seq<char> {
        seq!['('] + self.name() + seq![')']
    }

    pub fn number(&self) -> (rank: u8)
        ensures
            rank == self.rank(),
    {
        match self {
            Level::Error => 1,
            Level::Warn => 2,
            Level::Info => 3,
            Level::Debug => 4,
            Level::Trace => 5,
        }
    }

    fn tag_text(&self) -> (text: &'static str)
        ensures
            text@ == self.tag(),
    {
        proof {
            reveal_strlit("ERROR");
            reveal_strlit("WARN");
            reveal_strlit("INFO");
            reveal_strlit("DEBUG");
            reveal_strlit("TRACE");
            reveal_strlit("(ERROR)");
            reveal_strlit("(WARN)");
            reveal_strlit("(INFO)");
            reveal_strlit("(DEBUG)");
            reveal_strlit("(TRACE)");
        }
        let text = match self {
            Level::Error => "(ERROR)",
            Level::Warn => "(WARN)",
            Level::Info => "(INFO)",
            Level::Debug => "(DEBUG)",
            Level::Trace => "(TRACE)",
        };
        text
    }
}

/// The stream that lines go to.
#[derive(Clone, Copy, Debug, PartialEq, Eq, Structural)]
pub enum Target {
    /// The stream the logger was asked to write to.
    Configured,
    /// Standard error, because the configured stream did not take the header.
    Stderr,
}

/// The seconds field of a line, for a time shown as `shown` ticks.
pub open spec fn stamp(shown: nat) -> Seq<char> {
    decimal(shown / (TICKS_PER_SECOND as nat)) + seq!['.'] + fixed(
        shown % (TICKS_PER_SECOND as nat),
        STAMP_PLACES as nat,
    )
}

/// A whole line, its end included.
pub open spec fn line(shown: nat, level: Level, message: Seq<char>) -> Seq<char> {
    seq!['['] + pad_left(stamp(shown), STAMP_WIDTH as nat) + seq![']', ' '] + pad_right(
        level.tag(),
        LEVEL_WIDTH as nat,
    ) + seq![' '] + message + seq!['\n']
}

/// The line that opens a log.
pub open spec fn header_line(version: Seq<char>) -> Seq<char> {
    "A really awesome game "@ + version + seq!['\n']
}

/// Writes the line that opens a log, for the program in this version.
pub fn header(version: &str) -> (text: String)
    ensures
        text@ == header_line(version@),
{
    proof {
        reveal_strlit("\n");
    }
    let mut text = String::from_str("A really awesome game ");
    text.append(version);
    text.append("\n");
    text
}

/// A logger: where its lines go, when it was made, and the least grave
/// level that it still lets through.
#[derive(Clone, Copy, Debug, PartialEq, Eq, Structural)]
pub struct Logger {
    pub target: Target,
    /// The clock reading at which the logger was made, in nanoseconds.
    pub init_time: u64,
    pub level: Level,
}

impl Logger {
    /// Whether a message of `level` is let through.
    pub open spec fn lets_through(self, level: Level) -> bool {
        level.rank() <= self.level.rank()
    }

    /// Nanoseconds from the making of the logger to the clock reading `now`.
    /// A reading from before the logger was made counts as none.
    pub open spec fn elapsed_ns(self, now: u64) -> u64 {
        if now >= self.init_time {
            (now - self.init_time) as u64
        } else {
            0
        }
    }

    /// What a call at the clock reading `now` gives: no line for a level
    /// that is not let through, else the line.
    pub open spec fn entry(self, level: Level, message: Seq<char>, now: u64) -> Option<Seq<char>> {
        if self.lets_through(level) {
            Some(line(ticks(self.elapsed_ns(now)), level, message))
        } else {
            None
        }
    }

    /// Lines of one logger never go back in time: of two clock readings, the
    /// later one is shown as no fewer seconds than the earlier one.
    pub proof fn lemma_stamps_in_order(self, earlier: u64, later: u64)
        requires
            earlier <= later,
        ensures
            self.elapsed_ns(earlier) <= self.elapsed_ns(later),
            ticks(self.elapsed_ns(earlier)) <= ticks(self.elapsed_ns(later)),
    {
        lemma_ticks_monotonic(self.elapsed_ns(earlier), self.elapsed_ns(later));
    }

    /// A logger made at the clock reading `now`. `header_taken` tells whether
    /// the configured stream took the header; where it did not, the logger
    /// falls back to standard error.
    pub fn new_at(header_taken: bool, level: Level, now: u64) -> (logger: Logger)
        ensures
            logger == (Logger {
                target: if header_taken {
                    Target::Configured
                } else {
                    Target::Stderr
                },
                init_time: now,
                level,
            }),
    {
        let target = if header_taken {
            Target::Configured
        } else {
            Target::Stderr
        };
        Logger { target, init_time: now, level }
    }

    /// A logger made now.
    pub fn new(header_taken: bool, level: Level) -> (logger: Logger)
        ensures
            logger.level == level,
            logger.target == if header_taken {
                Target::Configured
            } else {
                Target::Stderr
            },
    {
        Logger::new_at(header_taken, level, precise_time_ns())
    }

    pub fn enabled(&self, level: Level) -> (yes: bool)
        ensures
            yes == self.lets_through(level),
    {
        level.number() <= self.level.number()
    }

    pub fn elapsed(&self, now: u64) -> (ns: u64)
        ensures
            ns == self.elapsed_ns(now),
    {
        if now >= self.init_time {
            now - self.init_time
        } else {
            0
        }
    }

    /// The line for `message` at the clock reading `now`, if its level is
    /// let through.
    pub fn log_at(&self, level: Level, message: &str, now: u64) -> (entry: Option<String>)
        ensures
            entry.is_some() == self.lets_through(level),
            entry matches Some(text) ==> Some(text@) == self.entry(level, message@, now),
    {
        if !self.enabled(level) {
            return None;
        }
        let shown = ticks_of(self.elapsed(now));
        let mut number = String::new();
        push_decimal(&mut number, shown / TICKS_PER_SECOND);
        proof {
            reveal_strlit(".");
            reveal_strlit("[");
            reveal_strlit("] ");
            reveal_strlit(" ");
            reveal_strlit("\n");
        }
        number.append(".");
        push_fixed(&mut number, shown % TICKS_PER_SECOND, STAMP_PLACES);
        let mut text = String::from_str("[");
        push_padded_left(&mut text, number.as_str(), STAMP_WIDTH);
        text.append("] ");
        push_padded_right(&mut text, level.tag_text(), LEVEL_WIDTH);
        text.append(" ");
        text.append(message);
        text.append("\n");
        Some(text)
    }

    /// The line for `message` now, if its level is let through.
    pub fn log(&self, level: Level, message: &str) -> (entry: Option<String>)
        ensures
            entry.is_some() == self.lets_through(level),
            entry matches Some(text) ==> exists|now: u64|
                Some(text@) == #[trigger] self.entry(level, message@, now),
    {
        if !self.enabled(level) {
            return None;
        }
        let now = precise_time_ns();
        self.log_at(level, message, now)
    }
}

/// Makes the logger of the program: one that lets every level through.
pub fn init(header_taken: bool) -> (logger: Logger)
    ensures
        logger.level == Level::Trace,
        logger.target == if header_taken {
            Target::Configured
        } else {
            Target::Stderr
        },
{
    Logger::new(header_taken, Level::Trace)
}

} // verus!
