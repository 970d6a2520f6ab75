//! The log-to-event forwarder: wraps an inner log sink, hands every record
//! to it unchanged, and additionally translates warn-or-more-severe records
//! into events for the external sink.

use crate::level::{is_reportable, spec_forwarder_enabled, spec_reportable, Level};
use crate::record::{event_for, spec_event_for, LogRecord, LogRecordV, Metadata};
use crate::sink::{EventSink, InnerLog};
use vstd::prelude::*;

verus! {

/// The forwarder's filtering decision, given the level a record announces
/// and the inner sink's own answer for it: interested in everything
/// warn-or-more-severe whatever the inner sink says, and in whatever the
/// inner sink claims — never less permissive than either.
pub fn decide_enabled(level: Level, inner_opinion: bool) -> (r: bool)
    ensures
        r == spec_forwarder_enabled(level, inner_opinion),
{
    is_reportable(level) || inner_opinion
}

/// Intercepts a log stream. Every record is handed to the wrapped inner
/// sink; reportable records (warn-or-more-severe) additionally produce
/// exactly one event each for the external sink. `forwarded` is the history
/// of records handed to the inner sink since this forwarder was built.
pub struct SentryLogger<L: InnerLog, S: EventSink> {
    pub inner: L,
    pub sink: S,
    pub forwarded: Ghost<Seq<LogRecordV>>,
}

impl<L: InnerLog, S: EventSink> SentryLogger<L, S> {
    /// Wraps the given inner sink and external sink.
    pub fn new(inner: L, sink: S) -> (logger: SentryLogger<L, S>)
        ensures
            logger.inner == inner,
            logger.sink == sink,
            logger.forwarded@ == Seq::<LogRecordV>::empty(),
    {
        SentryLogger { inner, sink, forwarded: Ghost(Seq::empty()) }
    }

    /// Asks the inner sink for its opinion and decides by
    /// [`decide_enabled`]: a warn-or-more-severe record is claimed whatever
    /// the inner sink answered. Side effects: none.
    pub fn enabled(&self, metadata: &Metadata) -> (r: bool)
        ensures
            spec_reportable(metadata.level) ==> r,
    {
        let inner_opinion = self.inner.enabled(metadata);
        decide_enabled(metadata.level, inner_opinion)
    }

    /// Handles one record: the inner sink is handed it unconditionally; a
    /// reportable record additionally submits exactly one event, the
    /// translation of the record; a less severe record touches the external
    /// sink not at all.
    pub fn log(&mut self, record: &LogRecord)
        ensures
            final(self).forwarded@ == old(self).forwarded@.push(record@),
            spec_reportable(record.level) ==> final(self).sink.events() == old(
                self,
            ).sink.events().push(spec_event_for(record@)),
            !spec_reportable(record.level) ==> final(self).sink.events() == old(
                self,
            ).sink.events(),
            final(self).sink.messages() == old(self).sink.messages(),
    {
        self.inner.log(record);
        proof {
            self.forwarded@ = self.forwarded@.push(record@);
        }
        if is_reportable(record.level) {
            let event = event_for(record);
            self.sink.capture_event(event);
        }
    }

    /// Flushes by delegating to the inner sink. The sinks' own buffering is
    /// the only buffering there is: the forwarder holds nothing back, and
    /// the external sink's delivery is the sink's own business.
    pub fn flush(&mut self)
        ensures
            final(self).forwarded@ == old(self).forwarded@,
            final(self).sink == old(self).sink,
    {
        self.inner.flush();
    }
}

} // verus!
