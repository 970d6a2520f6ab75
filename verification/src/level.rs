//! Log-record severities, event severities, and the filtering policy that
//! decides which records are forwarded to the external sink.

use vstd::prelude::*;

verus! {

/// Severity of a log record, ordered from most to least severe:
/// `Error > Warn > Info > Debug > Trace`.
#[derive(Clone, Copy, PartialEq, Eq, Structural, Debug)]
pub enum Level {
    Error,
    Warn,
    Info,
    Debug,
    Trace,
}

/// Severity of an event as the external sink understands it, ordered from
/// most to least severe: `Error > Warning > Info > Debug`. The sink has no
/// level finer than `Debug`.
#[derive(Clone, Copy, PartialEq, Eq, Structural, Debug)]
pub enum Severity {
    Error,
    Warning,
    Info,
    Debug,
}

/// A record is reportable to the external sink exactly when it is
/// warn-or-more-severe.
pub open spec fn spec_reportable(level: Level) -> bool {
    level == Level::Error || level == Level::Warn
}

/// Decides whether a record of the given level is forwarded to the external
/// sink.
pub fn is_reportable(level: Level) -> (r: bool)
    ensures
        r == spec_reportable(level),
{
    match level {
        Level::Error => true,
        Level::Warn => true,
        Level::Info => false,
        Level::Debug => false,
        Level::Trace => false,
    }
}

/// The event severity that a record of the given level is reported under.
/// `Trace` and `Debug` collapse to the sink's `Debug`.
pub open spec fn spec_severity(level: Level) -> Severity {
    match level {
        Level::Error => Severity::Error,
        Level::Warn => Severity::Warning,
        Level::Info => Severity::Info,
        Level::Debug => Severity::Debug,
        Level::Trace => Severity::Debug,
    }
}

/// Maps a record's level to the severity its event carries.
pub fn severity_for(level: Level) -> (s: Severity)
    ensures
        s == spec_severity(level),
{
    match level {
        Level::Error => Severity::Error,
        Level::Warn => Severity::Warning,
        Level::Info => Severity::Info,
        Level::Debug => Severity::Debug,
        Level::Trace => Severity::Debug,
    }
}

/// The forwarder's interest in a record: its own threshold, or the inner
/// sink's independent opinion — never less permissive than either.
pub open spec fn spec_forwarder_enabled(level: Level, inner_opinion: bool) -> bool {
    spec_reportable(level) || inner_opinion
}

} // verus!
