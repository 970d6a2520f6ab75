//! Log records, the metadata they announce, and the monitoring events that
//! reportable records are translated into.

use crate::level::{severity_for, spec_severity, Level, Severity};
use crate::text::{push_decimal, spec_decimal};
use vstd::prelude::*;
use vstd::string::StringExecFns;

verus! {

/// What a record announces about itself: its severity and the logical source
/// (module or subsystem) it comes from.
pub struct Metadata {
    pub level: Level,
    pub target: String,
}

/// The mathematical value of a [`Metadata`].
pub struct MetadataV {
    pub level: Level,
    pub target: Seq<char>,
}

impl View for Metadata {
    type V = MetadataV;

    open spec fn view(&self) -> MetadataV {
        MetadataV { level: self.level, target: self.target@ }
    }
}

/// One record of the host's log stream, as the bridge consumes it: severity,
/// formatted message, logical source name, and the optional code location.
pub struct LogRecord {
    pub level: Level,
    pub message: String,
    pub target: String,
    pub module: Option<String>,
    pub file: Option<String>,
    pub line: Option<u32>,
}

/// The mathematical value of a [`LogRecord`].
pub struct LogRecordV {
    pub level: Level,
    pub message: Seq<char>,
    pub target: Seq<char>,
    pub module: Option<Seq<char>>,
    pub file: Option<Seq<char>>,
    pub line: Option<u32>,
}

/// The value of an optional owned string.
pub open spec fn opt_text_view(text: Option<String>) -> Option<Seq<char>> {
    match text {
        Some(t) => Some(t@),
        None => None,
    }
}

impl View for LogRecord {
    type V = LogRecordV;

    open spec fn view(&self) -> LogRecordV {
        LogRecordV {
            level: self.level,
            message: self.message@,
            target: self.target@,
            module: opt_text_view(self.module),
            file: opt_text_view(self.file),
            line: self.line,
        }
    }
}

impl Clone for LogRecord {
    fn clone(&self) -> (r: Self)
        ensures
            r == *self,
    {
        LogRecord {
            level: self.level,
            message: self.message.clone(),
            target: self.target.clone(),
            module: match &self.module {
                Some(s) => Some(s.clone()),
                None => None,
            },
            file: match &self.file {
                Some(s) => Some(s.clone()),
                None => None,
            },
            line: self.line,
        }
    }
}

impl LogRecord {
    /// The metadata a record announces.
    pub fn metadata(&self) -> (m: Metadata)
        ensures
            m@.level == self.level,
            m@.target == self.target@,
    {
        Metadata { level: self.level, target: self.target.clone() }
    }
}

/// One event for the external sink. The sink assigns each submitted event a
/// freshly generated random identifier; everything the bridge decides is in
/// these fields, all other event fields stay at their defaults.
pub struct MonitoringEvent {
    pub message: String,
    pub logger: String,
    pub culprit: String,
    pub severity: Severity,
}

/// The mathematical value of a [`MonitoringEvent`].
pub struct EventV {
    pub message: Seq<char>,
    pub logger: Seq<char>,
    pub culprit: Seq<char>,
    pub severity: Severity,
}

impl View for MonitoringEvent {
    type V = EventV;

    open spec fn view(&self) -> EventV {
        EventV {
            message: self.message@,
            logger: self.logger@,
            culprit: self.culprit@,
            severity: self.severity,
        }
    }
}

/// An optional text, or the given placeholder where it is absent.
pub open spec fn spec_opt_or(text: Option<Seq<char>>, fallback: Seq<char>) -> Seq<char> {
    match text {
        Some(t) => t,
        None => fallback,
    }
}

/// The line number recorded for an event: the record's, or `0` where absent.
pub open spec fn spec_line_number(line: Option<u32>) -> nat {
    match line {
        Some(n) => n as nat,
        None => 0,
    }
}

/// The culprit string derived from a record's code location:
/// `"<module|(unknown_module)>: <file|(unknown_file)>:<line|0>"`.
pub open spec fn spec_culprit(
    module: Option<Seq<char>>,
    file: Option<Seq<char>>,
    line: Option<u32>,
) -> Seq<char> {
    spec_opt_or(module, "(unknown_module)"@) + ": "@ + spec_opt_or(file, "(unknown_file)"@)
        + ":"@ + spec_decimal(spec_line_number(line))
}

/// Renders the culprit string for a record's code location, substituting the
/// documented placeholders for absent parts.
pub fn culprit_string(
    module: &Option<String>,
    file: &Option<String>,
    line: &Option<u32>,
) -> (s: String)
    ensures
        s@ == spec_culprit(opt_text_view(*module), opt_text_view(*file), *line),
{
    let mut s = String::new();
    match module {
        Some(m) => s.append(m.as_str()),
        None => s.append("(unknown_module)"),
    }
    s.append(": ");
    match file {
        Some(f) => s.append(f.as_str()),
        None => s.append("(unknown_file)"),
    }
    s.append(":");
    let n: u32 = match line {
        Some(n) => *n,
        None => 0,
    };
    push_decimal(&mut s, n);
    proof {
        assert(s@ =~= spec_culprit(opt_text_view(*module), opt_text_view(*file), *line));
    }
    s
}

/// The event that a record translates into: the record's message, its target
/// as the logger name, the derived culprit, and the mapped severity.
pub open spec fn spec_event_for(r: LogRecordV) -> EventV {
    EventV {
        message: r.message,
        logger: r.target,
        culprit: spec_culprit(r.module, r.file, r.line),
        severity: spec_severity(r.level),
    }
}

/// Translates a record into the event submitted for it.
pub fn event_for(record: &LogRecord) -> (e: MonitoringEvent)
    ensures
        e@ == spec_event_for(record@),
{
    MonitoringEvent {
        message: record.message.clone(),
        logger: record.target.clone(),
        culprit: culprit_string(&record.module, &record.file, &record.line),
        severity: severity_for(record.level),
    }
}

} // verus!
