//! The guarantees the bridge gives, stated on their own. Each law here is
//! proved from the same spec functions the components' contracts use.

use crate::level::{spec_forwarder_enabled, spec_reportable, spec_severity, Level, Severity};
use crate::monitor::{spec_abnormal, spec_abnormal_message, RequestInfoV, ResponseInfoV};
use crate::sink::MessageV;
use vstd::prelude::*;

verus! {

/// A warn-or-more-severe record is always claimed, whatever the inner sink's
/// opinion of it.
pub proof fn lemma_enabled_high_severity(level: Level, inner_opinion: bool)
    requires
        spec_reportable(level),
    ensures
        spec_forwarder_enabled(level, inner_opinion),
{
}

/// The forwarder is never less permissive than the inner sink: whatever the
/// inner sink is interested in, the forwarder claims too.
pub proof fn lemma_enabled_covers_inner(level: Level, inner_opinion: bool)
    requires
        inner_opinion,
    ensures
        spec_forwarder_enabled(level, inner_opinion),
{
}

/// A record is reportable to the external sink exactly when its level is
/// `Error` or `Warn`.
pub proof fn lemma_reportable_iff(level: Level)
    ensures
        spec_reportable(level) <==> (level == Level::Error || level == Level::Warn),
{
}

/// The whole severity mapping table: `Error` and `Warn` map to the sink's
/// `Error` and `Warning`; `Info` keeps its name; `Trace` and `Debug` both
/// collapse to the sink's `Debug`.
pub proof fn lemma_severity_mapping()
    ensures
        spec_severity(Level::Error) == Severity::Error,
        spec_severity(Level::Warn) == Severity::Warning,
        spec_severity(Level::Info) == Severity::Info,
        spec_severity(Level::Debug) == Severity::Debug,
        spec_severity(Level::Trace) == Severity::Debug,
{
}

/// An exchange is reported exactly when its response status lies outside
/// `[200, 400)`.
pub proof fn lemma_abnormal_iff(status: u16)
    ensures
        spec_abnormal(status) <==> (status < 200 || status >= 400),
{
}

/// Observing the same abnormal exchange twice submits two independent,
/// identical messages: the report is a pure function of the exchange, and
/// the sink's history only ever grows — nothing is deduplicated.
pub proof fn lemma_repeated_report(messages: Seq<MessageV>, req: RequestInfoV, resp: ResponseInfoV)
    requires
        spec_abnormal(resp.status),
    ensures
        ({
            let m = MessageV { text: spec_abnormal_message(req, resp), severity: Severity::Error };
            let twice = messages.push(m).push(m);
            &&& twice.len() == messages.len() + 2
            &&& twice[messages.len() as int] == m
            &&& twice[messages.len() as int + 1] == m
            &&& forall|i: int| 0 <= i < messages.len() ==> twice[i] == messages[i]
        }),
{
}

} // verus!
