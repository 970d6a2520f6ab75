//! The [`EventSink`] backed by the real external monitoring backend, through
//! the `sentry` crate. The process-wide client it submits to is initialized
//! and torn down by the host's startup code, outside this crate.

use crate::level::Severity;
use crate::record::{EventV, MonitoringEvent};
use crate::sink::{EventSink, MessageV};
use vstd::prelude::*;

verus! {

/// Relies on `sentry::capture_event`: submits the given event, exactly once,
/// to the currently bound hub. `Event::default()` fills every field the
/// bridge does not decide, including a freshly generated random event
/// identifier (`sentry_types`' `default_id` draws a random `Uuid`).
#[verifier::external_body]
fn submit_event(event: &MonitoringEvent) {
    sentry::capture_event(sentry::protocol::Event {
        message: Some(event.message.clone()),
        logger: Some(event.logger.clone()),
        culprit: Some(event.culprit.clone()),
        level: match event.severity {
            Severity::Error => sentry::Level::Error,
            Severity::Warning => sentry::Level::Warning,
            Severity::Info => sentry::Level::Info,
            Severity::Debug => sentry::Level::Debug,
        },
        ..Default::default()
    });
}

/// Relies on `sentry::capture_message`: submits the given text, exactly
/// once, as a message under the given severity.
#[verifier::external_body]
fn submit_message(text: &str, severity: Severity) {
    sentry::capture_message(
        text,
        match severity {
            Severity::Error => sentry::Level::Error,
            Severity::Warning => sentry::Level::Warning,
            Severity::Info => sentry::Level::Info,
            Severity::Debug => sentry::Level::Debug,
        },
    );
}

/// The external sink itself. Each submission goes straight to the external
/// backend, fire-and-forget; the histories the contracts speak of are the
/// ghost record of everything handed over since this handle was created.
pub struct SentrySink {
    pub events_history: Ghost<Seq<EventV>>,
    pub messages_history: Ghost<Seq<MessageV>>,
}

impl SentrySink {
    /// A handle with empty submission histories.
    pub fn new() -> (s: SentrySink)
        ensures
            s.events() == Seq::<EventV>::empty(),
            s.messages() == Seq::<MessageV>::empty(),
    {
        SentrySink {
            events_history: Ghost(Seq::empty()),
            messages_history: Ghost(Seq::empty()),
        }
    }
}

impl EventSink for SentrySink {
    open spec fn events(&self) -> Seq<EventV> {
        self.events_history@
    }

    open spec fn messages(&self) -> Seq<MessageV> {
        self.messages_history@
    }

    fn capture_event(&mut self, event: MonitoringEvent) {
        submit_event(&event);
        proof {
            self.events_history@ = self.events_history@.push(event@);
        }
    }

    fn capture_message(&mut self, text: &str, severity: Severity) {
        submit_message(text, severity);
        proof {
            self.messages_history@ = self.messages_history@.push(
                MessageV { text: text@, severity },
            );
        }
    }
}

} // verus!
