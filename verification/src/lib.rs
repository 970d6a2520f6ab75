//! An observability bridge between a process's log stream, its HTTP
//! request/response lifecycle, and a remote error-aggregation backend.
//!
//! Two independent components carry the decision logic:
//!
//! * [`forwarder::SentryLogger`] wraps an inner log sink, always hands every
//!   record on to it, and additionally translates warn-or-worse records into
//!   events for the external sink.
//! * [`monitor::SentryFairing`] inspects completed HTTP exchanges and reports
//!   abnormal response statuses (outside `[200, 400)`) to the external sink.

pub mod forwarder;
pub mod laws;
pub mod level;
pub mod monitor;
pub mod record;
pub mod sentry_sink;
pub mod sink;
pub mod text;
