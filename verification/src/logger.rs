//! Deciding what is logged, where and in which colour. Writing the line
//! out is left to the caller.

use vstd::prelude::*;

verus! {

#[derive(PartialEq, Eq, Structural, PartialOrd, Clone, Copy, Debug)]
pub enum Level {
    /// Something really went wrong and the user will experience problems.
    Error,
    /// Generally silent, except something occurs that may lead to failure or
    /// unexpected behavior
    Warning,
    /// Normal informative output to follow the control flow
    Info,
    /// Fine-grained output to understand the program behavior down to
    /// implementation details
    Debug,
}

impl Level {
    /// The position of the level, from the most severe (0) to the most
    /// detailed (3).
    pub open spec fn rank_of(&self) -> nat {
        match self {
            Level::Error => 0,
            Level::Warning => 1,
            Level::Info => 2,
            Level::Debug => 3,
        }
    }

    /// The position of the level, from the most severe (0) to the most
    /// detailed (3).
    pub fn rank(&self) -> (res: u8)
        ensures
            res == self.rank_of(),
    {
        match self {
            Level::Error => 0,
            Level::Warning => 1,
            Level::Info => 2,
            Level::Debug => 3,
        }
    }
}

/// The stream that a line is written to.
#[derive(PartialEq, Eq, Structural, Clone, Copy, Debug)]
pub enum LogTarget {
    Stdout,
    Stderr,
}

/// The colour that a line is written in.
#[derive(PartialEq, Eq, Structural, Clone, Copy, Debug)]
pub enum LogColor {
    Plain,
    Cyan,
    Yellow,
    Red,
}

/// A line that is ready to be written out.
pub struct LogLine {
    pub target: LogTarget,
    pub color: LogColor,
    pub text: String,
}

/// Where lines of a level go.
pub open spec fn target_of(level: Level) -> LogTarget {
    match level {
        Level::Error | Level::Warning => LogTarget::Stderr,
        Level::Info | Level::Debug => LogTarget::Stdout,
    }
}

/// How lines of a level are coloured.
pub open spec fn color_of(level: Level) -> LogColor {
    match level {
        Level::Error => LogColor::Red,
        Level::Warning => LogColor::Yellow,
        Level::Info => LogColor::Plain,
        Level::Debug => LogColor::Cyan,
    }
}

#[derive(Clone, Copy)]
pub struct Logger {
    verbosity: Level,
}

impl Logger {
    /// The most detailed level that this logger lets through.
    pub closed spec fn verbosity(&self) -> Level {
        self.verbosity
    }

    /// What `line` must be for a message of `level` handed to this logger:
    /// nothing where the level is more detailed than the logger's
    /// verbosity, else the message itself with the level's target and
    /// colour.
    pub open spec fn accepts(&self, level: Level, msg: Seq<char>, line: Option<LogLine>) -> bool {
        if level.rank_of() <= self.verbosity().rank_of() {
            &&& line matches Some(l)
            &&& l.text@ == msg
            &&& l.target == target_of(level)
            &&& l.color == color_of(level)
        } else {
            line is None
        }
    }

    /// A logger that lets every level through.
    pub fn new() -> (res: Self)
        ensures
            res.verbosity() == Level::Debug,
    {
        Self { verbosity: Level::Debug }
    }

    /// A logger that lets through the levels up to `verbosity`.
    pub fn with_verbosity(verbosity: Level) -> (res: Self)
        ensures
            res.verbosity() == verbosity,
    {
        Self { verbosity }
    }

    fn line(&self, level: Level, msg: &str) -> (res: Option<LogLine>)
        ensures
            self.accepts(level, msg@, res),
    {
        if self.verbosity.rank() >= level.rank() {
            let target = match level {
                Level::Error | Level::Warning => LogTarget::Stderr,
                Level::Info | Level::Debug => LogTarget::Stdout,
            };
            let color = match level {
                Level::Error => LogColor::Red,
                Level::Warning => LogColor::Yellow,
                Level::Info => LogColor::Plain,
                Level::Debug => LogColor::Cyan,
            };
            Some(LogLine { target, color, text: String::from_str(msg) })
        } else {
            None
        }
    }

    /// The line to write for a debugging message, if any.
    pub fn debug(&self, msg: &str) -> (res: Option<LogLine>)
        ensures
            self.accepts(Level::Debug, msg@, res),
    {
        self.line(Level::Debug, msg)
    }

    /// The line to write for an informative message, if any.
    pub fn info(&self, msg: &str) -> (res: Option<LogLine>)
        ensures
            self.accepts(Level::Info, msg@, res),
    {
        self.line(Level::Info, msg)
    }

    /// The line to write for a warning, if any.
    pub fn warn(&self, msg: &str) -> (res: Option<LogLine>)
        ensures
            self.accepts(Level::Warning, msg@, res),
    {
        self.line(Level::Warning, msg)
    }

    /// The line to write for an error, if any.
    pub fn error(&self, msg: &str) -> (res: Option<LogLine>)
        ensures
            self.accepts(Level::Error, msg@, res),
    {
        self.line(Level::Error, msg)
    }
}

} // verus!
