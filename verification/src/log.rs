//! Which messages are logged, and in what colour.

use crate::util::text::begins_with;
use vstd::prelude::*;

verus! {

/// How much a message matters, most urgent first.
#[derive(Debug, Clone, Copy, PartialEq, Eq, Structural)]
pub enum Level {
    Error,
    Warn,
    Info,
    Debug,
    Trace,
}

impl Level {
    /// The rank of the level: the higher, the less urgent.
    pub open spec fn rank(self) -> int {
        match self {
            Level::Error => 1,
            Level::Warn => 2,
            Level::Info => 3,
            Level::Debug => 4,
            Level::Trace => 5,
        }
    }

    /// The rank of the level: the higher, the less urgent.
    pub fn to_rank(&self) -> (rank: u8)
        ensures
            rank == self.rank(),
    {
        match self {
            Level::Error => 1,
            Level::Warn => 2,
            Level::Info => 3,
            Level::Debug => 4,
            Level::Trace => 5,
        }
    }
}

/// The colour in which a message is shown.
#[derive(Debug, Clone, Copy, PartialEq, Eq, Structural)]
pub enum Color {
    Blue,
    Yellow,
    Red,
    White,
}

impl Color {
    /// The colour for a level: blue for debugging, yellow for warnings, red
    /// for errors, white for everything else.
    pub fn from_level(level: Level) -> (color: Color)
        ensures
            color == match level {
                Level::Debug => Color::Blue,
                Level::Warn => Color::Yellow,
                Level::Error => Color::Red,
                _ => Color::White,
            },
    {
        match level {
            Level::Debug => Color::Blue,
            Level::Warn => Color::Yellow,
            Level::Error => Color::Red,
            _ => Color::White,
        }
    }
}

/// The logger of the program.
#[derive(Debug, Clone, Copy, PartialEq, Eq)]
pub struct Logger;

/// The name with which the targets of this program's messages begin.
pub const TARGET: &'static str = "wifu";

impl Logger {
    /// Tells whether a message is logged: it is if it comes from this
    /// program, and is no less urgent than debugging in development, than
    /// information otherwise.
    pub fn enabled(level: Level, target: &str, development: bool) -> (yes: bool)
        ensures
            yes == (level.rank() <= (if development {
                Level::Debug.rank()
            } else {
                Level::Info.rank()
            }) && TARGET@.len() <= target@.len() && target@.subrange(0, TARGET@.len() as int)
                == TARGET@),
    {
        let limit = if development {
            Level::Debug.to_rank()
        } else {
            Level::Info.to_rank()
        };
        level.to_rank() <= limit && begins_with(target, TARGET)
    }
}

} // verus!
