//! Which messages are shown. The levels to show are configured as a list of
//! level names separated by commas.

use crate::text::{split, split_text};
use vstd::prelude::*;

verus! {

/// How much a message matters.
#[derive(Debug, Clone, Copy, PartialEq, Eq, Structural)]
pub enum LogLevel {
    DEBUG,
    ERROR,
    INFO,
    WARN,
}

impl LogLevel {
    /// The name by which a level is configured. Warnings go by the name of
    /// debug messages, so the two are shown or hidden together.
    pub open spec fn spec_value(self) -> Seq<char> {
        match self {
            LogLevel::DEBUG => "DEBUG"@,
            LogLevel::ERROR => "ERROR"@,
            LogLevel::INFO => "INFO"@,
            LogLevel::WARN => "DEBUG"@,
        }
    }

    pub fn value(&self) -> (r: String)
        ensures
            r@ == self.spec_value(),
    {
        match *self {
            LogLevel::DEBUG => "DEBUG".to_owned(),
            LogLevel::ERROR => "ERROR".to_owned(),
            LogLevel::INFO => "INFO".to_owned(),
            LogLevel::WARN => "DEBUG".to_owned(),
        }
    }
}

/// The logger.
#[derive(Debug)]
pub struct Log {}

impl Log {
    /// A message is shown when the name of its level is among the
    /// configured names.
    pub open spec fn spec_enabled(set_level: Seq<char>, level: LogLevel) -> bool {
        split(set_level, ',').contains(level.spec_value())
    }

    /// Tells whether messages of a level are shown under a configuration.
    pub fn enabled(set_level: &str, level: LogLevel) -> (r: bool)
        ensures
            r == Self::spec_enabled(set_level@, level),
    {
        let names: Vec<String> = split_text(set_level, ',');
        let name: String = level.value();
        let mut i: usize = 0;
        while i < names.len()
            invariant
                i <= names@.len(),
                names.deep_view() == split(set_level@, ','),
                name@ == level.spec_value(),
                forall|j: int| 0 <= j < i ==> #[trigger] names.deep_view()[j] != name@,
            decreases names@.len() - i,
        {
            assert(names.deep_view()[i as int] == names@[i as int]@);
            if names[i] == name {
                return true;
            }
            i = i + 1;
        }
        false
    }
}

} // verus!
