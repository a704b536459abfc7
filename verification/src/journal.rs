//! Log lines as values: the relay says what is to be logged, the program
//! around it writes the lines.

use vstd::prelude::*;

verus! {

/// The level at which a line is logged.
#[derive(Clone, Copy, Debug, PartialEq, Eq, Structural)]
pub enum Level {
    Error,
    Info,
    Debug,
}

/// One line for the log.
#[derive(Clone, Debug, PartialEq, Eq)]
pub struct LogLine {
    pub level: Level,
    pub text: String,
}

/// A log line as a mathematical value.
pub struct Entry {
    pub level: Level,
    pub text: Seq<char>,
}

impl View for LogLine {
    type V = Entry;

    open spec fn view(&self) -> Entry {
        Entry { level: self.level, text: self.text@ }
    }
}

/// Whether the lines of `log` are the entries of `expected`, in order.
pub open spec fn reads(log: Seq<LogLine>, expected: Seq<Entry>) -> bool {
    &&& log.len() == expected.len()
    &&& forall|i: int| 0 <= i < log.len() ==> (#[trigger] log[i])@ == expected[i]
}

/// How many lines of `log` have the level `level`.
pub open spec fn count_level(log: Seq<LogLine>, level: Level) -> nat
    decreases log.len(),
{
    if log.len() == 0 {
        0
    } else {
        count_level(log.drop_last(), level) + if log.last().level == level {
            1nat
        } else {
            0nat
        }
    }
}

impl LogLine {
    /// A line at `level` that reads `text`.
    pub fn new(level: Level, text: String) -> (line: LogLine)
        ensures
            line@ == (Entry { level, text: text@ }),
    {
        LogLine { level, text }
    }
}

} // verus!
