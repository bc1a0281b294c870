//! Severity levels and the filter that decides which messages are drawn.

use vstd::prelude::*;
use crate::draw::{Color, Draw};
use crate::terminal::{rendering, Terminal};

verus! {

/// How severe a message is. From least to most severe: `Trace`, `Debug`,
/// `Info`, `Warn`, `Error`.
#[derive(Clone, Copy, Debug, PartialEq, Eq, Structural)]
pub enum Level {
    Error,
    Warn,
    Info,
    Debug,
    Trace,
}

/// Which messages a logger lets through: none, or those of a level and of
/// every level more severe.
#[derive(Clone, Copy, Debug, PartialEq, Eq, Structural)]
pub enum LevelFilter {
    Off,
    Error,
    Warn,
    Info,
    Debug,
    Trace,
}

/// A message with its severity.
#[derive(Clone, Debug, PartialEq, Eq)]
pub struct Record {
    pub level: Level,
    pub message: String,
}

/// The mathematical value of a [`Record`]: its level, and its message as a
/// sequence of characters.
pub ghost struct RecordView {
    pub level: Level,
    pub message: Seq<char>,
}

impl View for Record {
    type V = RecordView;

    open spec fn view(&self) -> RecordView {
        RecordView { level: self.level, message: self.message@ }
    }
}

impl DeepView for Record {
    type V = RecordView;

    open spec fn deep_view(&self) -> RecordView {
        self@
    }
}

impl Level {
    /// The rank of the level by severity, `Trace` lowest.
    pub open spec fn severity(self) -> nat {
        match self {
            Level::Trace => 0,
            Level::Debug => 1,
            Level::Info => 2,
            Level::Warn => 3,
            Level::Error => 4,
        }
    }

    /// The level's name as it stands in a drawn message.
    pub open spec fn name(self) -> Seq<char> {
        match self {
            Level::Error => "ERROR"@,
            Level::Warn => "WARN"@,
            Level::Info => "INFO"@,
            Level::Debug => "DEBUG"@,
            Level::Trace => "TRACE"@,
        }
    }

    /// The colour in which a message of this level is drawn.
    pub open spec fn color(self) -> Color {
        match self {
            Level::Error => Color::Red,
            Level::Warn => Color::Yellow,
            _ => Color::Reset,
        }
    }

    /// Whether a message of this level is at least as severe as `floor`.
    pub open spec fn reaches(self, floor: Level) -> bool {
        self.severity() >= floor.severity()
    }

    /// The rank of the level by severity, `Trace` lowest.
    pub fn rank(self) -> (r: u8)
        ensures
            r == self.severity(),
    {
        match self {
            Level::Trace => 0,
            Level::Debug => 1,
            Level::Info => 2,
            Level::Warn => 3,
            Level::Error => 4,
        }
    }

    /// The level's name as it stands in a drawn message.
    pub fn as_str(self) -> (r: &'static str)
        ensures
            r@ == self.name(),
    {
        match self {
            Level::Error => "ERROR",
            Level::Warn => "WARN",
            Level::Info => "INFO",
            Level::Debug => "DEBUG",
            Level::Trace => "TRACE",
        }
    }

    /// The colour in which a message of this level is drawn.
    pub fn paint(self) -> (r: Color)
        ensures
            r == self.color(),
    {
        match self {
            Level::Error => Color::Red,
            Level::Warn => Color::Yellow,
            _ => Color::Reset,
        }
    }

    /// Whether a message of this level is at least as severe as `floor`.
    pub fn at_least(self, floor: Level) -> (r: bool)
        ensures
            r == self.reaches(floor),
    {
        self.rank() >= floor.rank()
    }
}

impl LevelFilter {
    /// The least severe level that the filter lets through, if any.
    pub open spec fn floor(self) -> Option<Level> {
        match self {
            LevelFilter::Off => None,
            LevelFilter::Error => Some(Level::Error),
            LevelFilter::Warn => Some(Level::Warn),
            LevelFilter::Info => Some(Level::Info),
            LevelFilter::Debug => Some(Level::Debug),
            LevelFilter::Trace => Some(Level::Trace),
        }
    }

    /// Whether the filter lets a message of `level` through.
    pub open spec fn admits(self, level: Level) -> bool {
        match self.floor() {
            Some(floor) => level.reaches(floor),
            None => false,
        }
    }

    /// The least severe level that the filter lets through, if any.
    pub fn to_level(self) -> (r: Option<Level>)
        ensures
            r == self.floor(),
    {
        match self {
            LevelFilter::Off => None,
            LevelFilter::Error => Some(Level::Error),
            LevelFilter::Warn => Some(Level::Warn),
            LevelFilter::Info => Some(Level::Info),
            LevelFilter::Debug => Some(Level::Debug),
            LevelFilter::Trace => Some(Level::Trace),
        }
    }
}

/// The logger: it lets through the messages that its filter admits and has
/// the terminal draw them.
pub struct Logger {
    level: LevelFilter,
}

impl Logger {
    /// The filter that the logger was made with.
    pub closed spec fn filter(&self) -> LevelFilter {
        self.level
    }

    pub fn new(level: LevelFilter) -> (logger: Self)
        ensures
            logger.filter() == level,
    {
        Self { level }
    }

    /// Whether the logger lets a message of `level` through.
    pub fn enabled(&self, level: Level) -> (r: bool)
        ensures
            r == self.filter().admits(level),
    {
        match self.level.to_level() {
            Some(floor) => level.at_least(floor),
            None => false,
        }
    }

    /// What to draw for `record` on `terminal`: nothing where the filter
    /// does not admit the record, else what the terminal draws for it around
    /// the line that is being typed at this moment.
    pub fn log<F: Fn(Vec<String>) -> bool + Copy>(
        &self,
        record: &Record,
        terminal: &Terminal<F>,
    ) -> (draw: Vec<Draw>)
        ensures
            draw.deep_view() == if self.filter().admits(record.level) {
                rendering(terminal.level, record@, terminal.input@)
            } else {
                Seq::empty()
            },
    {
        if !self.enabled(record.level) {
            return Vec::new();
        }
        terminal.render(record)
    }
}

} // verus!
