//! Logging configuration.

use vstd::prelude::*;

use crate::text::push_text;

verus! {

/// The most verbose level of log records that are kept.
#[derive(Clone, Copy, PartialEq, Eq, Structural, Debug)]
pub enum Level {
    Trace,
    Debug,
    Info,
    Warn,
    Error,
}

/// Logging configuration: the most verbose level kept, and how times are
/// written.
pub struct LogConfig {
    pub max_level: Level,
    pub time_format: String,
}

impl Default for LogConfig {
    fn default() -> (r: Self)
        ensures
            r.max_level == Level::Info,
            r.time_format@ == "[year]-[month]-[day] [hour]:[minute]:[second]"@,
    {
        let mut time_format = String::new();
        push_text(&mut time_format, "[year]-[month]-[day] [hour]:[minute]:[second]");
        LogConfig { max_level: Level::Info, time_format }
    }
}

} // verus!
