use std::sync::Arc;
use std::time::Instant;

use ravix::apm::{
    config, correlation_id_for, result_label, send_entry, transaction_name, ActiveTransaction,
    Apm, ApmEntry, MetaEntry, ServiceContext, SpanScope, TransactionHandle,
};

fn meta(key: &str, v: i64) -> MetaEntry {
    MetaEntry { key: key.to_string(), value: serde_json::Value::from(v) }
}

#[test]
fn transaction_records_once() {
    let txn = ActiveTransaction::with_identity("GET /users".to_string(), 7, 9, 100, Instant::now());
    let mut h = TransactionHandle::new(txn, "request".to_string());
    h.set_correlation_id("corr".to_string());
    let rec = h.finalise(Some("HTTP 200"), Some(vec![meta("a", 1)]), 150).unwrap();
    assert_eq!(rec.id, 7);
    assert_eq!(rec.trace_id, 9);
    assert_eq!(rec.name, "GET /users");
    assert_eq!(rec.transaction_type, "request");
    assert_eq!(rec.start_time, 100);
    assert_eq!(rec.end_time, 250);
    assert_eq!(rec.result.as_deref(), Some("HTTP 200"));
    assert_eq!(rec.correlation_id.as_deref(), Some("corr"));
    assert_eq!(rec.metadata.len(), 1);
    assert!(rec.service.is_none());
    assert!(h.finalise(None, None, 300).is_none());
}

#[test]
fn start_transaction_keeps_metadata() {
    let h = Apm.start_transaction("job", "task", Some(vec![meta("x", 1), meta("y", 2)]));
    assert_eq!(h.active_txn().name, "job");
    assert_eq!(h.active_txn().metadata.len(), 2);
    let rec = h.end(None, Some(vec![meta("z", 3)])).unwrap();
    assert_eq!(rec.metadata.len(), 3);
    assert_eq!(rec.metadata[2].key, "z");
    assert_eq!(rec.transaction_type, "task");
    assert!(rec.result.is_none());
}

#[test]
fn spans_nest_and_restore_the_current_span() {
    let txn = ActiveTransaction::with_identity("t".to_string(), 1, 2, 0, Instant::now());
    let mut scope = Some(SpanScope::enter(txn.ids()));
    let outer = Apm.start_span(&mut scope, "outer", "app", None);
    let outer_id = scope.unwrap().current_span;
    let inner = Apm.start_span(&mut scope, "inner", "db", None);
    let inner_id = scope.unwrap().current_span;
    assert_ne!(outer_id, inner_id);
    let inner_rec = inner.end(&mut scope, None).unwrap();
    assert_eq!(inner_rec.parent_id, Some(outer_id));
    assert_eq!(inner_rec.transaction_id, 1);
    assert_eq!(inner_rec.trace_id, 2);
    assert_eq!(inner_rec.span_type, "db");
    assert_eq!(scope.unwrap().current_span, outer_id);
    let outer_rec = outer.end(&mut scope, None).unwrap();
    assert_eq!(outer_rec.parent_id, Some(0));
    assert_eq!(scope.unwrap().current_span, 0);
}

#[test]
fn span_outside_transaction_records_nothing() {
    let mut scope: Option<SpanScope> = None;
    let h = Apm.start_span(&mut scope, "lonely", "app", None);
    assert!(h.end(&mut scope, None).is_none());
    assert!(scope.is_none());
}

#[test]
fn span_finalises_once() {
    let txn = ActiveTransaction::with_identity("t".to_string(), 1, 2, 0, Instant::now());
    let mut scope = Some(SpanScope::enter(txn.ids()));
    let mut h = Apm.start_span(&mut scope, "s", "app", Some(vec![meta("k", 1)]));
    let rec = h.finalise(&mut scope, Some(vec![meta("count", 2)]), 42).unwrap();
    assert_eq!(rec.end_time, rec.start_time + 42);
    assert_eq!(rec.metadata.len(), 2);
    assert_eq!(rec.name, "s");
    assert!(h.finalise(&mut scope, None, 43).is_none());
}

#[test]
fn send_entry_stamps_transactions_only_when_configured() {
    let txn = ActiveTransaction::with_identity("t".to_string(), 1, 2, 0, Instant::now());
    let rec = TransactionHandle::new(txn, "r".to_string()).finalise(None, None, 5).unwrap();
    assert!(send_entry(None, ApmEntry::Transaction(rec)).is_none());
    let svc = Arc::new(ServiceContext {
        service_name: "svc".to_string(),
        service_version: None,
        environment: None,
        server_name: None,
        context: Vec::new(),
    });
    let txn = ActiveTransaction::with_identity("t".to_string(), 1, 2, 0, Instant::now());
    let rec = TransactionHandle::new(txn, "r".to_string()).finalise(None, None, 5).unwrap();
    match send_entry(Some(&svc), ApmEntry::Transaction(rec)) {
        Some(ApmEntry::Transaction(t)) => {
            assert!(Arc::ptr_eq(t.service.as_ref().unwrap(), &svc));
        }
        _ => panic!("expected a transaction"),
    }
}

#[test]
fn middleware_names_and_results() {
    assert_eq!(transaction_name("GET", "/users"), "GET /users");
    assert_eq!(result_label(200), "HTTP 200");
    assert_eq!(result_label(404), "HTTP 404");
    assert_eq!(result_label(500), "HTTP 500");
    assert_eq!(result_label(7), "HTTP 7");
}

#[test]
fn correlation_id_prefers_the_request_header() {
    assert_eq!(correlation_id_for(Some("abc-123")), "abc-123");
    let generated = correlation_id_for(Some(""));
    assert_eq!(generated.len(), 36);
    let other = correlation_id_for(None);
    assert_eq!(other.len(), 36);
    assert_ne!(generated, other);
    let c: Vec<char> = other.chars().collect();
    assert_eq!((c[8], c[13], c[14], c[18], c[23]), ('-', '-', '4', '-', '-'));
    assert!(matches!(c[19], '8' | '9' | 'a' | 'b'));
}

#[test]
fn apm_config_defaults_the_log_path() {
    let c = config::<()>().service_name("my-service").service_version("1.0.0").environment("production").build();
    assert_eq!(c.log_path, "apm.ndjson");
    assert_eq!(c.service.service_name, "my-service");
    assert_eq!(c.service.service_version.as_deref(), Some("1.0.0"));
    assert!(c.correlation_id_header.is_none());
    let c2 = config::<()>().log_path("x.ndjson").correlation_id_header("X-Correlation-ID").build();
    assert_eq!(c2.log_path, "x.ndjson");
    assert_eq!(c2.correlation_id_header.as_deref(), Some("X-Correlation-ID"));
}

#[test]
fn ends_are_measured_from_the_start() {
    assert_eq!(ravix::apm::end_time_of(100, 50), 150);
    assert_eq!(ravix::apm::end_time_of(i64::MAX - 1, 5), i64::MAX);
    assert_eq!(ravix::apm::end_time_of(-10, u128::MAX), i64::MAX);
    let h = Apm.start_transaction("t", "x", None);
    let rec = h.end(None, None).unwrap();
    assert!(rec.start_time <= rec.end_time);
}

#[test]
fn apm_config_keeps_the_adapter_given() {
    let c = config::<u8>().service_name("svc").build();
    assert_eq!(c.service.service_name, "svc");
    assert_eq!(c.log_path, "apm.ndjson");
    assert!(c.adapter.is_none());
    assert!(c.correlation_id_header.is_none());
    let d = config::<u8>().adapter(7).log_path("p").build();
    assert_eq!(d.adapter, Some(7));
}
