use std::sync::Arc;

use ravix::apm::ServiceContext;
use ravix::logger::{dispatch, LogLevel, LogOptions, Logger, LoggerState};

fn state(min: LogLevel) -> LoggerState {
    LoggerState {
        service: Arc::new(ServiceContext {
            service_name: "svc".to_string(),
            service_version: None,
            environment: None,
            server_name: None,
            context: Vec::new(),
        }),
        min_level: min,
        default_classification: "PUBLIC".to_string(),
        classifications: vec!["PUBLIC".to_string(), "CONFIDENTIAL".to_string()],
    }
}

#[test]
fn entries_below_min_level_are_dropped() {
    let st = state(LogLevel::Info);
    let l = Logger;
    assert!(l.debug(&st, "d".to_string(), None, None).is_none());
    assert!(l.trace(&st, "t".to_string(), None, None).is_none());
    assert!(l.info(&st, "i".to_string(), None, None).is_some());
    assert!(l.warn(&st, "w".to_string(), None, None).is_some());
    assert!(l.error(&st, "e".to_string(), None, None).is_some());
}

#[test]
fn errors_pass_any_minimum() {
    let st = state(LogLevel::Error);
    let e = Logger.error(&st, "boom".to_string(), None, None).unwrap();
    assert_eq!(e.level, LogLevel::Error);
    assert_eq!(e.message, "boom");
    assert!(Logger.warn(&st, "w".to_string(), None, None).is_none());
}

#[test]
fn default_classification_is_used_without_override() {
    let st = state(LogLevel::Trace);
    let e = Logger.info(&st, "m".to_string(), None, Some("cid".to_string())).unwrap();
    assert_eq!(e.classification, "PUBLIC");
    assert_eq!(e.correlation_id.as_deref(), Some("cid"));
    assert_eq!(dispatch(&st, &e), Some(0));
}

#[test]
fn classification_override_routes_to_its_writer() {
    let st = state(LogLevel::Trace);
    let opts = LogOptions { classification: Some("CONFIDENTIAL".to_string()), context: None };
    let e = Logger.info(&st, "secret".to_string(), Some(opts), None).unwrap();
    assert_eq!(e.classification, "CONFIDENTIAL");
    assert_eq!(dispatch(&st, &e), Some(1));
}

#[test]
fn unknown_classification_has_no_writer() {
    let st = state(LogLevel::Trace);
    let opts = LogOptions { classification: Some("INTERNAL".to_string()), context: None };
    let e = Logger.info(&st, "x".to_string(), Some(opts), None).unwrap();
    assert_eq!(dispatch(&st, &e), None);
}

#[test]
fn correlation_header_defaults_when_unconfigured() {
    assert_eq!(Logger::correlation_id_header(None), "X-Correlation-ID");
    assert_eq!(Logger::correlation_id_header(Some("X-Req")), "X-Req");
}

#[test]
fn level_order_is_trace_to_error() {
    assert!(LogLevel::Trace.is_below(&LogLevel::Debug));
    assert!(LogLevel::Debug.is_below(&LogLevel::Info));
    assert!(LogLevel::Info.is_below(&LogLevel::Warn));
    assert!(LogLevel::Warn.is_below(&LogLevel::Error));
    assert!(!LogLevel::Error.is_below(&LogLevel::Error));
}

#[test]
fn a_repeated_classification_routes_to_its_last_file() {
    let mut st = state(LogLevel::Trace);
    st.classifications.push("PUBLIC".to_string());
    let e = Logger.info(&st, "m".to_string(), None, None).unwrap();
    assert_eq!(dispatch(&st, &e), Some(2));
}
