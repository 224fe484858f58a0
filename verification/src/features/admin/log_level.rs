//! Reading and setting the service's log level.
use vstd::prelude::*;

verus! {

/// The level of a log message.
#[derive(Clone, Copy, Debug, PartialEq, Eq, Structural)]
pub enum Level {
    Error,
    Warn,
    Info,
    Debug,
    Trace,
}

/// The most verbose level that the logger lets through, or none at all.
#[derive(Clone, Copy, Debug, PartialEq, Eq, Structural)]
pub enum LevelFilter {
    Off,
    Error,
    Warn,
    Info,
    Debug,
    Trace,
}

/// The filter that lets through `level` and everything more severe.
pub open spec fn filter_for(level: Level) -> LevelFilter {
    match level {
        Level::Error => LevelFilter::Error,
        Level::Warn => LevelFilter::Warn,
        Level::Info => LevelFilter::Info,
        Level::Debug => LevelFilter::Debug,
        Level::Trace => LevelFilter::Trace,
    }
}

/// The request for setting the log level.
#[derive(Clone, Copy, Debug)]
pub struct SetLogLevelRequest {
    /// The requested log level
    pub level: Level,
}

/// The response for setting the log level, essentially nothing but an Ack.
#[derive(Clone, Copy, Debug)]
pub struct SetLogLevelResponse;

/// Returns the log level to the caller.
#[derive(Clone, Copy, Debug)]
pub struct GetLogLevelResponse {
    /// The current log level
    pub level: Level,
}

impl SetLogLevelRequest {
    /// The filter to install for this request: the requested level and everything more
    /// severe.
    pub fn level_filter(&self) -> (r: LevelFilter)
        ensures
            r == filter_for(self.level),
    {
        match self.level {
            Level::Error => LevelFilter::Error,
            Level::Warn => LevelFilter::Warn,
            Level::Info => LevelFilter::Info,
            Level::Debug => LevelFilter::Debug,
            Level::Trace => LevelFilter::Trace,
        }
    }
}

impl GetLogLevelResponse {
    /// The response reporting the installed filter, as the level it lets through last.
    /// The filter must let something through.
    pub fn from_filter(filter: LevelFilter) -> (r: GetLogLevelResponse)
        requires
            filter != LevelFilter::Off,
        ensures
            filter_for(r.level) == filter,
    {
        let level = match filter {
            LevelFilter::Error => Level::Error,
            LevelFilter::Warn => Level::Warn,
            LevelFilter::Info => Level::Info,
            LevelFilter::Debug => Level::Debug,
            _ => Level::Trace,
        };
        GetLogLevelResponse { level }
    }
}

/// Setting the level and then reading it back gives the level that was set.
pub proof fn lemma_set_then_get_level(level: Level)
    ensures
        filter_for(level) != LevelFilter::Off,
        forall|l: Level| filter_for(l) == filter_for(level) ==> l == level,
{
}

} // verus!
