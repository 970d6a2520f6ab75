use sentry_bridge::forwarder::{decide_enabled, SentryLogger};
use sentry_bridge::level::{is_reportable, severity_for, Level, Severity};
use sentry_bridge::monitor::{
    abnormal_message, is_abnormal, HookKind, RequestInfo, ResponseInfo, RouteInfo, SentryFairing,
};
use sentry_bridge::record::{culprit_string, event_for, LogRecord};
use sentry_bridge::sink::{RecordingLog, RecordingSink};
use sentry_bridge::text::decimal_string;

fn record(level: Level) -> LogRecord {
    LogRecord {
        level,
        message: String::from("something happened"),
        target: String::from("app::web"),
        module: Some(String::from("app::web::handlers")),
        file: Some(String::from("handlers.rs")),
        line: Some(17),
    }
}

fn logger() -> SentryLogger<RecordingLog, RecordingSink> {
    SentryLogger::new(RecordingLog::new(false), RecordingSink::new())
}

#[test]
fn enabled_claims_error_and_warn_despite_uninterested_inner() {
    let l = logger();
    assert!(l.enabled(&record(Level::Error).metadata()));
    assert!(l.enabled(&record(Level::Warn).metadata()));
    assert!(!l.enabled(&record(Level::Info).metadata()));
    assert!(!l.enabled(&record(Level::Debug).metadata()));
    assert!(!l.enabled(&record(Level::Trace).metadata()));
}

#[test]
fn enabled_respects_inner_interest() {
    let l = SentryLogger::new(RecordingLog::new(true), RecordingSink::new());
    assert!(l.enabled(&record(Level::Trace).metadata()));
    assert!(l.enabled(&record(Level::Info).metadata()));
    assert!(l.enabled(&record(Level::Error).metadata()));
}

#[test]
fn decision_is_or_of_threshold_and_inner_opinion() {
    for level in [Level::Error, Level::Warn] {
        assert!(decide_enabled(level, false));
        assert!(decide_enabled(level, true));
    }
    for level in [Level::Info, Level::Debug, Level::Trace] {
        assert!(!decide_enabled(level, false));
        assert!(decide_enabled(level, true));
    }
}

#[test]
fn error_record_submits_one_error_event() {
    let mut l = logger();
    l.log(&record(Level::Error));
    assert_eq!(l.inner.records.len(), 1);
    assert_eq!(l.sink.events.len(), 1);
    assert_eq!(l.sink.messages.len(), 0);
    let event = &l.sink.events[0];
    assert_eq!(event.severity, Severity::Error);
    assert_eq!(event.message, "something happened");
    assert_eq!(event.logger, "app::web");
    assert_eq!(event.culprit, "app::web::handlers: handlers.rs:17");
}

#[test]
fn warn_record_submits_one_warning_event() {
    let mut l = logger();
    l.log(&record(Level::Warn));
    assert_eq!(l.inner.records.len(), 1);
    assert_eq!(l.sink.events.len(), 1);
    assert_eq!(l.sink.events[0].severity, Severity::Warning);
}

#[test]
fn low_severity_records_submit_nothing_but_still_reach_inner() {
    let mut l = logger();
    l.log(&record(Level::Info));
    l.log(&record(Level::Debug));
    l.log(&record(Level::Trace));
    assert_eq!(l.inner.records.len(), 3);
    assert_eq!(l.sink.events.len(), 0);
    assert_eq!(l.inner.records[0].level, Level::Info);
    assert_eq!(l.inner.records[2].level, Level::Trace);
}

#[test]
fn severity_mapping_table() {
    assert_eq!(severity_for(Level::Error), Severity::Error);
    assert_eq!(severity_for(Level::Warn), Severity::Warning);
    assert_eq!(severity_for(Level::Info), Severity::Info);
    assert_eq!(severity_for(Level::Debug), Severity::Debug);
    assert_eq!(severity_for(Level::Trace), Severity::Debug);
}

#[test]
fn reportable_only_for_error_and_warn() {
    assert!(is_reportable(Level::Error));
    assert!(is_reportable(Level::Warn));
    assert!(!is_reportable(Level::Info));
    assert!(!is_reportable(Level::Debug));
    assert!(!is_reportable(Level::Trace));
}

#[test]
fn culprit_substitutes_missing_module() {
    let culprit = culprit_string(&None, &Some(String::from("x.rs")), &Some(42));
    assert_eq!(culprit, "(unknown_module): x.rs:42");
}

#[test]
fn culprit_substitutes_everything_missing() {
    let culprit = culprit_string(&None, &None, &None);
    assert_eq!(culprit, "(unknown_module): (unknown_file):0");
}

#[test]
fn event_translation_keeps_record_fields() {
    let event = event_for(&record(Level::Warn));
    assert_eq!(event.message, "something happened");
    assert_eq!(event.logger, "app::web");
    assert_eq!(event.culprit, "app::web::handlers: handlers.rs:17");
    assert_eq!(event.severity, Severity::Warning);
}

#[test]
fn flush_delegates_and_loses_nothing() {
    let mut l = logger();
    l.log(&record(Level::Error));
    l.flush();
    assert_eq!(l.inner.records.len(), 1);
    assert_eq!(l.sink.events.len(), 1);
}

#[test]
fn decimal_rendering_exact_values() {
    assert_eq!(decimal_string(0), "0");
    assert_eq!(decimal_string(7), "7");
    assert_eq!(decimal_string(42), "42");
    assert_eq!(decimal_string(200), "200");
    assert_eq!(decimal_string(65535), "65535");
    assert_eq!(decimal_string(4294967295), "4294967295");
}

#[test]
fn status_classification_boundaries() {
    assert!(is_abnormal(199));
    assert!(!is_abnormal(200));
    assert!(!is_abnormal(399));
    assert!(is_abnormal(400));
    assert!(is_abnormal(100));
    assert!(is_abnormal(500));
    assert!(!is_abnormal(302));
}

fn exchange(status: u16, reason: Option<&str>, route: RouteInfo) -> (RequestInfo, ResponseInfo) {
    (
        RequestInfo { uri: String::from("/api/x"), route },
        ResponseInfo { status, reason: reason.map(String::from) },
    )
}

#[test]
fn abnormal_response_submits_one_error_message() {
    let (request, response) = exchange(500, None, RouteInfo::NoRoute);
    let mut fairing = SentryFairing::new(RecordingSink::new());
    fairing.on_response(&request, &response);
    assert_eq!(fairing.sink.messages.len(), 1);
    assert_eq!(fairing.sink.events.len(), 0);
    let (text, severity) = &fairing.sink.messages[0];
    assert_eq!(severity, &Severity::Error);
    assert_eq!(
        text,
        "Abnormal response 500 (Unknown reason), on request for /api/x (No route associated)"
    );
}

#[test]
fn normal_response_submits_nothing() {
    let mut fairing = SentryFairing::new(RecordingSink::new());
    for status in [200u16, 204, 302, 399] {
        let (request, response) = exchange(status, Some("OK"), RouteInfo::Unnamed);
        fairing.on_response(&request, &response);
    }
    assert_eq!(fairing.sink.messages.len(), 0);
}

#[test]
fn boundary_statuses_through_the_monitor() {
    let mut fairing = SentryFairing::new(RecordingSink::new());
    for status in [199u16, 200, 399, 400] {
        let (request, response) = exchange(status, None, RouteInfo::NoRoute);
        fairing.on_response(&request, &response);
    }
    assert_eq!(fairing.sink.messages.len(), 2);
    assert!(fairing.sink.messages[0].0.starts_with("Abnormal response 199 "));
    assert!(fairing.sink.messages[1].0.starts_with("Abnormal response 400 "));
}

#[test]
fn route_name_resolution() {
    let (request, response) = exchange(404, Some("Not Found"), RouteInfo::Named(String::from("index")));
    assert_eq!(
        abnormal_message(&request, &response),
        "Abnormal response 404 (Not Found), on request for /api/x (index)"
    );
    let (request, response) = exchange(404, Some("Not Found"), RouteInfo::Unnamed);
    assert_eq!(
        abnormal_message(&request, &response),
        "Abnormal response 404 (Not Found), on request for /api/x (Unnamed route)"
    );
    let (request, response) = exchange(404, Some("Not Found"), RouteInfo::NoRoute);
    assert_eq!(
        abnormal_message(&request, &response),
        "Abnormal response 404 (Not Found), on request for /api/x (No route associated)"
    );
}

#[test]
fn same_exchange_twice_submits_twice() {
    let (request, response) = exchange(500, None, RouteInfo::NoRoute);
    let mut fairing = SentryFairing::new(RecordingSink::new());
    fairing.on_response(&request, &response);
    fairing.on_response(&request, &response);
    assert_eq!(fairing.sink.messages.len(), 2);
    assert_eq!(fairing.sink.messages[0], fairing.sink.messages[1]);
}

#[test]
fn hook_declares_itself_as_response_only() {
    let fairing = SentryFairing::new(RecordingSink::new());
    let info = fairing.info();
    assert_eq!(info.name, "Sentry");
    assert_eq!(info.kind, HookKind::Response);
}
