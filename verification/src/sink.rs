//! The two collaborators both components are wired to: the external event
//! sink and the inner log sink, each abstracted by the history of what it has
//! been handed. In-memory recording implementations of both live here; the
//! implementation backed by the real external sink is in [`crate::sentry_sink`].

use crate::record::{EventV, LogRecord, Metadata, MonitoringEvent};
use crate::level::Severity;
use vstd::prelude::*;

verus! {

/// One plain-text message submitted to the external sink, with its severity.
pub struct MessageV {
    pub text: Seq<char>,
    pub severity: Severity,
}

/// The external sink's ingestion interface: submit one event, or one
/// plain-text message, per call. A sink is abstracted by the two histories of
/// everything submitted to it; nothing is ever merged, deduplicated or
/// dropped from them by this crate.
pub trait EventSink: Sized {
    /// All events submitted so far, in submission order.
    spec fn events(&self) -> Seq<EventV>;

    /// All plain-text messages submitted so far, in submission order.
    spec fn messages(&self) -> Seq<MessageV>;

    /// Submits exactly one event.
    fn capture_event(&mut self, event: MonitoringEvent)
        ensures
            final(self).events() == old(self).events().push(event@),
            final(self).messages() == old(self).messages(),
    ;

    /// Submits exactly one plain-text message under the given severity.
    fn capture_message(&mut self, text: &str, severity: Severity)
        ensures
            final(self).messages() == old(self).messages().push(
                (MessageV { text: text@, severity }),
            ),
            final(self).events() == old(self).events(),
    ;
}

/// The pluggable inner log sink that [`crate::forwarder::SentryLogger`]
/// wraps: it receives every record, whatever the external filtering decides.
/// The host plugs in whatever implementation it likes (typically one writing
/// to console or file), so nothing is promised of these methods; the
/// forwarder's own contracts state what is handed to the sink, and what the
/// forwarder decides for every answer `enabled` may give.
pub trait InnerLog: Sized {
    /// Reports whether this sink is independently interested in records of
    /// the given metadata.
    fn enabled(&self, metadata: &Metadata) -> bool;

    /// Receives one record.
    fn log(&mut self, record: &LogRecord);

    /// Flushes whatever the sink buffers.
    fn flush(&mut self);
}

/// An in-memory [`EventSink`] that keeps everything submitted to it, exactly
/// in submission order.
pub struct RecordingSink {
    pub events: Vec<MonitoringEvent>,
    pub messages: Vec<(String, Severity)>,
}

impl RecordingSink {
    /// A sink with empty histories.
    pub fn new() -> (s: RecordingSink)
        ensures
            s.events() == Seq::<EventV>::empty(),
            s.messages() == Seq::<MessageV>::empty(),
    {
        let s = RecordingSink { events: Vec::new(), messages: Vec::new() };
        proof {
            assert(s.events() =~= Seq::<EventV>::empty());
            assert(s.messages() =~= Seq::<MessageV>::empty());
        }
        s
    }
}

impl EventSink for RecordingSink {
    open spec fn events(&self) -> Seq<EventV> {
        self.events@.map_values(|e: MonitoringEvent| e@)
    }

    open spec fn messages(&self) -> Seq<MessageV> {
        self.messages@.map_values(
            |m: (String, Severity)| MessageV { text: m.0@, severity: m.1 },
        )
    }

    fn capture_event(&mut self, event: MonitoringEvent) {
        self.events.push(event);
        proof {
            assert(self.events() =~= old(self).events().push(event@));
            assert(self.messages() =~= old(self).messages());
        }
    }

    fn capture_message(&mut self, text: &str, severity: Severity) {
        self.messages.push((text.to_owned(), severity));
        proof {
            assert(self.messages() =~= old(self).messages().push(
                (MessageV { text: text@, severity }),
            ));
            assert(self.events() =~= old(self).events());
        }
    }
}

/// An in-memory [`InnerLog`] that keeps every record it receives and reports
/// a fixed interest of its own.
pub struct RecordingLog {
    pub records: Vec<LogRecord>,
    pub interest: bool,
}

impl RecordingLog {
    /// A log with no records received yet and the given fixed interest.
    pub fn new(interest: bool) -> (l: RecordingLog)
        ensures
            l.records@ == Seq::<LogRecord>::empty(),
            l.interest == interest,
    {
        RecordingLog { records: Vec::new(), interest }
    }
}

impl InnerLog for RecordingLog {
    fn enabled(&self, metadata: &Metadata) -> bool {
        self.interest
    }

    fn log(&mut self, record: &LogRecord) {
        self.records.push(record.clone());
    }

    fn flush(&mut self) {
    }
}

} // verus!
