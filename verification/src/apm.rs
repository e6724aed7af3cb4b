use std::sync::Arc;
use std::time::Instant;
use vstd::prelude::*;
use crate::sys::{new_uuid, now_micros, share_service};
use crate::text::{decimal, push_decimal, is_uuid_v4_text};

verus! {

/// `serde_json::Value` is carried opaquely inside metadata entries.
#[verifier::external_type_specification]
#[verifier::external_body]
pub struct ExJsonValue(serde_json::Value);

/// `std::time::Instant` is carried opaquely as the monotonic start of a
/// transaction or span.
#[verifier::external_type_specification]
#[verifier::external_body]
pub struct ExInstant(Instant);

/// Reads the monotonic clock with `Instant::now`.
///
/// Trusted: nothing is claimed of the value, which depends on the clock.
#[verifier::external_body]
fn monotonic_now() -> (r: Instant) {
    Instant::now()
}

/// The microseconds elapsed since `start`, with `Instant::elapsed` and
/// `Duration::as_micros`.
///
/// Trusted: nothing is claimed beyond the type, which is unsigned: the
/// monotonic clock never goes back.
#[verifier::external_body]
fn elapsed_micros(start: &Instant) -> (r: u128) {
    start.elapsed().as_micros()
}

/// The wall-clock end of something that started at `start` (microseconds
/// since the Unix epoch) and lasted `elapsed` microseconds; an end past the
/// last representable instant is that instant.
pub open spec fn end_after(start: i64, elapsed: u128) -> i64 {
    if start + elapsed <= i64::MAX {
        (start + elapsed) as i64
    } else {
        i64::MAX
    }
}

/// The wall-clock end of something that started at `start` and lasted
/// `elapsed` microseconds.
pub fn end_time_of(start: i64, elapsed: u128) -> (r: i64)
    ensures
        r == end_after(start, elapsed),
        start <= r,
{
    if elapsed > 18446744073709551615u128 {
        return i64::MAX;
    }
    let sum: i128 = start as i128 + elapsed as i128;
    if sum > 9223372036854775807i128 {
        i64::MAX
    } else {
        sum as i64
    }
}

/// One key/value pair of APM metadata.
pub struct MetaEntry {
    pub key: String,
    pub value: serde_json::Value,
}

/// Metadata as an ordered list of entries; when it is rendered as a JSON
/// object a later entry overrides an earlier one with the same key, as
/// `HashMap::extend` does.
pub type Metadata = Vec<MetaEntry>;

/// The metadata that `base` extended with `extra` (if any) renders to.
pub open spec fn merged(base: Seq<MetaEntry>, extra: Option<Metadata>) -> Seq<MetaEntry> {
    match extra {
        Some(e) => base + e@,
        None => base,
    }
}

/// Appends `extra` (if any) to `base`.
fn merge_into(base: &mut Metadata, extra: Option<Metadata>)
    ensures
        final(base)@ == merged(old(base)@, extra),
{
    match extra {
        Some(mut e) => base.append(&mut e),
        None => {},
    }
}

/// Description of the emitting service, stamped on transaction records.
pub struct ServiceContext {
    pub service_name: String,
    pub service_version: Option<String>,
    pub environment: Option<String>,
    pub server_name: Option<String>,
    pub context: Metadata,
}

/// The identifiers of a transaction that spans inside it refer to.
#[derive(Clone, Copy)]
pub struct TxnRef {
    pub id: u128,
    pub trace_id: u128,
}

/// In-flight transaction state.
pub struct ActiveTransaction {
    pub id: u128,
    pub trace_id: u128,
    pub name: String,
    /// Wall-clock start, microseconds since the Unix epoch.
    pub wall_start: i64,
    /// Monotonic start, from which the end is measured.
    pub started: Instant,
    /// Metadata that can be enriched during the transaction's lifetime.
    pub metadata: Metadata,
    /// Cross-service correlation ID, set by the middleware or by hand.
    pub correlation_id: Option<String>,
}

impl ActiveTransaction {
    /// A transaction named `name` with fresh random identifiers, started now.
    pub fn new(name: String) -> (t: Self)
        ensures
            t.name == name,
            t.metadata@.len() == 0,
            t.correlation_id is None,
    {
        let id = new_uuid();
        let trace_id = new_uuid();
        let wall_start = now_micros();
        let started = monotonic_now();
        Self::with_identity(name, id, trace_id, wall_start, started)
    }

    /// A transaction with the given identifiers and start time.
    pub fn with_identity(name: String, id: u128, trace_id: u128, wall_start: i64, started: Instant) -> (t:
        Self)
        ensures
            t.name == name,
            t.id == id,
            t.trace_id == trace_id,
            t.wall_start == wall_start,
            t.started == started,
            t.metadata@.len() == 0,
            t.correlation_id is None,
    {
        ActiveTransaction {
            id,
            trace_id,
            name,
            wall_start,
            started,
            metadata: Vec::new(),
            correlation_id: None,
        }
    }

    /// The identifiers that spans of this transaction refer to.
    pub open spec fn txn_ref(&self) -> TxnRef {
        TxnRef { id: self.id, trace_id: self.trace_id }
    }

    /// The identifiers that spans of this transaction refer to.
    pub fn ids(&self) -> (r: TxnRef)
        ensures
            r == self.txn_ref(),
    {
        TxnRef { id: self.id, trace_id: self.trace_id }
    }

    /// Attach a correlation ID to this transaction.
    pub fn set_correlation_id(&mut self, id: String)
        ensures
            final(self).correlation_id == Some(id),
            final(self).id == old(self).id,
            final(self).trace_id == old(self).trace_id,
            final(self).name == old(self).name,
            final(self).wall_start == old(self).wall_start,
            final(self).started == old(self).started,
            final(self).metadata == old(self).metadata,
    {
        self.correlation_id = Some(id);
    }
}

/// A finished transaction, ready to be written.
pub struct TransactionRecord {
    pub id: u128,
    pub trace_id: u128,
    pub name: String,
    pub transaction_type: String,
    pub start_time: i64,
    pub end_time: i64,
    pub result: Option<String>,
    pub correlation_id: Option<String>,
    pub metadata: Metadata,
    /// Filled in when the record is sent (see [`send_entry`]).
    pub service: Option<Arc<ServiceContext>>,
}

/// A finished span, ready to be written.
pub struct SpanRecord {
    pub id: u128,
    pub transaction_id: u128,
    pub trace_id: u128,
    pub parent_id: Option<u128>,
    pub name: String,
    pub span_type: String,
    pub subtype: Option<String>,
    pub start_time: i64,
    pub end_time: i64,
    pub metadata: Metadata,
}

/// One line of the APM log.
pub enum ApmEntry {
    Transaction(TransactionRecord),
    Span(SpanRecord),
}

/// Handle for an in-flight transaction. Ending it produces its record once;
/// any later end produces nothing.
pub struct TransactionHandle {
    txn: ActiveTransaction,
    transaction_type: String,
    ended: bool,
}

impl TransactionHandle {
    pub closed spec fn txn(&self) -> ActiveTransaction {
        self.txn
    }

    pub closed spec fn transaction_type(&self) -> String {
        self.transaction_type
    }

    pub closed spec fn is_ended(&self) -> bool {
        self.ended
    }

    /// A handle for `txn`, not yet ended.
    pub fn new(txn: ActiveTransaction, transaction_type: String) -> (h: Self)
        ensures
            h.txn() == txn,
            h.transaction_type() == transaction_type,
            !h.is_ended(),
    {
        TransactionHandle { txn, transaction_type, ended: false }
    }

    /// The transaction state, for entering its scope and for reading its
    /// identifiers.
    pub fn active_txn(&self) -> (t: &ActiveTransaction)
        ensures
            *t == self.txn(),
    {
        &self.txn
    }

    /// Attach a correlation ID to the handle's transaction.
    pub fn set_correlation_id(&mut self, id: String)
        ensures
            final(self).txn().correlation_id == Some(id),
            final(self).txn().txn_ref() == old(self).txn().txn_ref(),
            final(self).txn().name == old(self).txn().name,
            final(self).txn().wall_start == old(self).txn().wall_start,
            final(self).txn().metadata == old(self).txn().metadata,
            final(self).transaction_type() == old(self).transaction_type(),
            final(self).is_ended() == old(self).is_ended(),
    {
        self.txn.set_correlation_id(id);
    }

    /// The record that ending a not-yet-ended handle produces.
    pub open spec fn record_spec(
        &self,
        result: Option<&str>,
        extra: Option<Metadata>,
        elapsed: u128,
        rec: TransactionRecord,
    ) -> bool {
        &&& rec.id == self.txn().id
        &&& rec.trace_id == self.txn().trace_id
        &&& rec.name@ == self.txn().name@
        &&& rec.transaction_type@ == self.transaction_type()@
        &&& rec.start_time == self.txn().wall_start
        &&& rec.end_time == end_after(self.txn().wall_start, elapsed)
        &&& rec.start_time <= rec.end_time
        &&& match result {
            Some(s) => rec.result is Some && rec.result->0@ == s@,
            None => rec.result is None,
        }
        &&& rec.correlation_id == self.txn().correlation_id
        &&& rec.metadata@ == merged(self.txn().metadata@, extra)
        &&& rec.service is None
    }

    /// Finalise the transaction `elapsed` microseconds after it started:
    /// the first call yields the record, every later call yields `None`.
    pub fn finalise(&mut self, result: Option<&str>, metadata: Option<Metadata>, elapsed: u128) -> (r:
        Option<TransactionRecord>)
        ensures
            final(self).is_ended(),
            final(self).txn().txn_ref() == old(self).txn().txn_ref(),
            old(self).is_ended() ==> r is None && *final(self) == *old(self),
            !old(self).is_ended() ==> r is Some && old(self).record_spec(
                result,
                metadata,
                elapsed,
                r->0,
            ),
    {
        if self.ended {
            return None;
        }
        self.ended = true;
        let end_time = end_time_of(self.txn.wall_start, elapsed);
        let mut meta: Metadata = Vec::new();
        std::mem::swap(&mut meta, &mut self.txn.metadata);
        merge_into(&mut meta, metadata);
        let mut correlation_id: Option<String> = None;
        std::mem::swap(&mut correlation_id, &mut self.txn.correlation_id);
        let result_owned = match result {
            Some(s) => Some(s.to_string()),
            None => None,
        };
        Some(
            TransactionRecord {
                id: self.txn.id,
                trace_id: self.txn.trace_id,
                name: self.txn.name.clone(),
                transaction_type: self.transaction_type.clone(),
                start_time: self.txn.wall_start,
                end_time,
                result: result_owned,
                correlation_id,
                metadata: meta,
                service: None,
            },
        )
    }

    /// End the transaction now, measuring its end on the monotonic clock from
    /// its start, and return its record (`None` when it had already ended).
    pub fn end(self, result: Option<&str>, metadata: Option<Metadata>) -> (r: Option<
        TransactionRecord,
    >)
        ensures
            self.is_ended() ==> r is None,
            !self.is_ended() ==> r is Some && exists|e: u128| self.record_spec(result, metadata, e, r->0),
    {
        let elapsed = elapsed_micros(&self.txn.started);
        let mut handle = self;
        handle.finalise(result, metadata, elapsed)
    }
}


/// What the task-local scope of a transaction holds: the transaction and
/// the ID of the innermost open span (the nil ID `0` at the top level).
#[derive(Clone, Copy)]
pub struct SpanScope {
    pub txn: TxnRef,
    pub current_span: u128,
}

impl SpanScope {
    /// The scope entered for a transaction: no span is open yet, so the
    /// current span is the nil ID.
    pub fn enter(txn: TxnRef) -> (s: Self)
        ensures
            s.txn == txn,
            s.current_span == 0,
    {
        SpanScope { txn, current_span: 0 }
    }
}

/// An open span.
pub struct SpanInner {
    pub txn: TxnRef,
    pub id: u128,
    pub name: String,
    pub span_type: String,
    pub subtype: Option<String>,
    pub parent_id: Option<u128>,
    /// The span ID that was current before this span opened; it is made
    /// current again when this span ends.
    pub previous_span_id: Option<u128>,
    pub wall_start: i64,
    /// Monotonic start, from which the end is measured.
    pub started: Instant,
    pub metadata: Metadata,
    pub ended: bool,
}

/// Handle for an in-flight span; a no-op handle when the span was started
/// outside any transaction. Ending it produces its record once.
pub struct SpanHandle {
    inner: Option<SpanInner>,
}

/// The scope after a span ends: the span that was current before it opened
/// is current again.
pub open spec fn scope_after_end(scope: Option<SpanScope>, previous: Option<u128>) -> Option<
    SpanScope,
> {
    match (scope, previous) {
        (Some(s), Some(p)) => Some(SpanScope { txn: s.txn, current_span: p }),
        _ => scope,
    }
}

impl SpanHandle {
    pub closed spec fn inner(&self) -> Option<SpanInner> {
        self.inner
    }

    /// Whether this handle will still produce a record.
    pub open spec fn is_live(&self) -> bool {
        self.inner() is Some && !self.inner()->0.ended
    }

    /// Open a span with the given identity at `wall_start`. The span that
    /// was current in `scope` is remembered and `id` becomes current.
    pub fn new(
        scope: &mut Option<SpanScope>,
        txn: TxnRef,
        name: String,
        span_type: String,
        subtype: Option<String>,
        parent_id: Option<u128>,
        metadata: Option<Metadata>,
        id: u128,
        wall_start: i64,
        started: Instant,
    ) -> (h: Self)
        ensures
            h.inner() is Some,
            h.inner()->0.txn == txn,
            h.inner()->0.id == id,
            h.inner()->0.name == name,
            h.inner()->0.span_type == span_type,
            h.inner()->0.subtype == subtype,
            h.inner()->0.parent_id == parent_id,
            h.inner()->0.wall_start == wall_start,
            h.inner()->0.started == started,
            h.inner()->0.metadata@ == merged(Seq::empty(), metadata),
            !h.inner()->0.ended,
            match *old(scope) {
                Some(s) => h.inner()->0.previous_span_id == Some(s.current_span) && *final(scope)
                    == Some(SpanScope { txn: s.txn, current_span: id }),
                None => h.inner()->0.previous_span_id is None && *final(scope) is None,
            },
    {
        let previous_span_id = match scope {
            Some(s) => {
                let prev = s.current_span;
                s.current_span = id;
                Some(prev)
            },
            None => None,
        };
        let mut meta: Metadata = Vec::new();
        merge_into(&mut meta, metadata);
        SpanHandle {
            inner: Some(
                SpanInner {
                    txn,
                    id,
                    name,
                    span_type,
                    subtype,
                    parent_id,
                    previous_span_id,
                    wall_start,
                    started,
                    metadata: meta,
                    ended: false,
                },
            ),
        }
    }

    /// The handle of a span started outside any transaction: it records
    /// nothing.
    pub fn noop() -> (h: Self)
        ensures
            h.inner() is None,
    {
        SpanHandle { inner: None }
    }

    /// The record that ending a live span `elapsed` microseconds after it
    /// started produces.
    pub open spec fn record_spec(
        &self,
        extra: Option<Metadata>,
        elapsed: u128,
        rec: SpanRecord,
    ) -> bool {
        let i = self.inner()->0;
        &&& rec.id == i.id
        &&& rec.transaction_id == i.txn.id
        &&& rec.trace_id == i.txn.trace_id
        &&& rec.parent_id == i.parent_id
        &&& rec.name@ == i.name@
        &&& rec.span_type@ == i.span_type@
        &&& rec.subtype == i.subtype
        &&& rec.start_time == i.wall_start
        &&& rec.end_time == end_after(i.wall_start, elapsed)
        &&& rec.start_time <= rec.end_time
        &&& rec.metadata@ == merged(i.metadata@, extra)
    }

    /// Finalise the span `elapsed` microseconds after it started. The first
    /// call on a live span makes
    /// the previously current span current again and yields the record;
    /// every other call changes nothing and yields `None`.
    pub fn finalise(
        &mut self,
        scope: &mut Option<SpanScope>,
        metadata: Option<Metadata>,
        elapsed: u128,
    ) -> (r: Option<SpanRecord>)
        ensures
            !final(self).is_live(),
            !old(self).is_live() ==> r is None && *final(scope) == *old(scope),
            old(self).is_live() ==> {
                &&& r is Some
                &&& old(self).record_spec(metadata, elapsed, r->0)
                &&& *final(scope) == scope_after_end(
                    *old(scope),
                    old(self).inner()->0.previous_span_id,
                )
            },
    {
        match &mut self.inner {
            None => None,
            Some(inner) => {
                if inner.ended {
                    return None;
                }
                inner.ended = true;
                let end_time = end_time_of(inner.wall_start, elapsed);
                match (scope, inner.previous_span_id) {
                    (Some(s), Some(prev)) => {
                        s.current_span = prev;
                    },
                    _ => {},
                }
                let mut meta: Metadata = Vec::new();
                std::mem::swap(&mut meta, &mut inner.metadata);
                merge_into(&mut meta, metadata);
                Some(
                    SpanRecord {
                        id: inner.id,
                        transaction_id: inner.txn.id,
                        trace_id: inner.txn.trace_id,
                        parent_id: inner.parent_id,
                        name: inner.name.clone(),
                        span_type: inner.span_type.clone(),
                        subtype: inner.subtype.clone(),
                        start_time: inner.wall_start,
                        end_time,
                        metadata: meta,
                    },
                )
            },
        }
    }

    /// End the span now and return its record (`None` for a no-op or an
    /// already-ended span).
    pub fn end(self, scope: &mut Option<SpanScope>, metadata: Option<Metadata>) -> (r: Option<
        SpanRecord,
    >)
        ensures
            !self.is_live() ==> r is None && *final(scope) == *old(scope),
            self.is_live() ==> {
                &&& r is Some
                &&& exists|e: u128| self.record_spec(metadata, e, r->0)
                &&& *final(scope) == scope_after_end(*old(scope), self.inner()->0.previous_span_id)
            },
    {
        let elapsed = match &self.inner {
            Some(inner) => elapsed_micros(&inner.started),
            None => 0,
        };
        let mut handle = self;
        handle.finalise(scope, metadata, elapsed)
    }
}


/// Renders a fresh random `uuid::Uuid::new_v4` in its hyphenated form.
///
/// Trusted: the value is random; what is claimed is its form: the
/// hyphenated text of a version 4 UUID (`new_v4` sets the version and
/// variant bits of every draw, `to_string` writes the hyphenated form).
#[verifier::external_body]
fn new_uuid_string() -> (r: String)
    ensures
        is_uuid_v4_text(r@),
{
    uuid::Uuid::new_v4().to_string()
}

/// The entry that is written for `entry` when the APM is configured with
/// `service` (transactions carry the service; spans are unchanged), and
/// `None` when it is not configured.
pub open spec fn stamped(service: Option<Arc<ServiceContext>>, entry: ApmEntry) -> Option<ApmEntry> {
    match service {
        None => None,
        Some(svc) => match entry {
            ApmEntry::Transaction(t) => Some(
                ApmEntry::Transaction(TransactionRecord { service: Some(svc), ..t }),
            ),
            ApmEntry::Span(sp) => Some(ApmEntry::Span(sp)),
        },
    }
}

/// Prepare `entry` for writing: stamp the configured service context on
/// transaction records. Returns `None` when the APM is not configured, in
/// which case nothing is written.
pub fn send_entry(service: Option<&Arc<ServiceContext>>, entry: ApmEntry) -> (r: Option<ApmEntry>)
    ensures
        r == stamped(
            match service {
                Some(s) => Some(*s),
                None => None,
            },
            entry,
        ),
{
    match service {
        None => None,
        Some(svc) => match entry {
            ApmEntry::Transaction(t) => {
                let shared = share_service(svc);
                Some(ApmEntry::Transaction(TransactionRecord { service: Some(shared), ..t }))
            },
            ApmEntry::Span(sp) => Some(ApmEntry::Span(sp)),
        },
    }
}

/// The transaction name the middleware gives a request: `"{METHOD} {path}"`.
pub fn transaction_name(method: &str, path: &str) -> (r: String)
    ensures
        r@ == method@ + seq![' '] + path@,
{
    let mut s = method.to_string();
    proof { reveal_strlit(" "); }
    s.append(" ");
    s.append(path);
    s
}

/// The result the middleware records for a response status: `"HTTP {status}"`.
pub fn result_label(status: u16) -> (r: String)
    ensures
        r@ == seq!['H', 'T', 'T', 'P', ' '] + decimal(status as nat),
{
    proof { reveal_strlit("HTTP "); }
    let mut s = "HTTP ".to_string();
    push_decimal(&mut s, status as u128);
    s
}

/// The correlation ID for a request: the value of the configured header when
/// it is present and not empty, otherwise a freshly generated UUID.
pub fn correlation_id_for(found: Option<&str>) -> (r: String)
    ensures
        found is Some && found->0@.len() > 0 ==> r@ == found->0@,
        !(found is Some && found->0@.len() > 0) ==> is_uuid_v4_text(r@),
{
    match found {
        Some(v) => {
            if v.is_empty() {
                new_uuid_string()
            } else {
                v.to_string()
            }
        },
        None => new_uuid_string(),
    }
}

/// The application APM tracer: a zero-sized handle.
#[derive(Clone, Copy)]
pub struct Apm;

impl Default for Apm {
    fn default() -> (r: Self)
        ensures
            r == Apm,
    {
        Apm
    }
}

impl Apm {
    /// A new APM handle, shared for registration in a container.
    pub fn new() -> (r: Arc<Self>)
        ensures
            *r == Apm,
    {
        Arc::new(Apm)
    }

    /// Create a new transaction named `name` of type `txn_type`, carrying
    /// `metadata`, without entering its scope.
    pub fn start_transaction(&self, name: &str, txn_type: &str, metadata: Option<Metadata>) -> (h:
        TransactionHandle)
        ensures
            !h.is_ended(),
            h.txn().name@ == name@,
            h.transaction_type()@ == txn_type@,
            h.txn().metadata@ == merged(Seq::empty(), metadata),
            h.txn().correlation_id is None,
    {
        let mut txn = ActiveTransaction::new(name.to_string());
        merge_into(&mut txn.metadata, metadata);
        TransactionHandle::new(txn, txn_type.to_string())
    }

    /// Start a span under the transaction of `scope`. The span's parent is
    /// the span that was current, and the new span becomes current. Outside
    /// any transaction the handle is a no-op and the scope is untouched.
    pub fn start_span(
        &self,
        scope: &mut Option<SpanScope>,
        name: &str,
        span_type: &str,
        metadata: Option<Metadata>,
    ) -> (h: SpanHandle)
        ensures
            match *old(scope) {
                None => h.inner() is None && *final(scope) is None,
                Some(s) => {
                    &&& h.is_live()
                    &&& h.inner()->0.txn == s.txn
                    &&& h.inner()->0.parent_id == Some(s.current_span)
                    &&& h.inner()->0.previous_span_id == Some(s.current_span)
                    &&& h.inner()->0.name@ == name@
                    &&& h.inner()->0.span_type@ == span_type@
                    &&& h.inner()->0.subtype is None
                    &&& h.inner()->0.metadata@ == merged(Seq::empty(), metadata)
                    &&& *final(scope) == Some(
                        SpanScope { txn: s.txn, current_span: h.inner()->0.id },
                    )
                },
            },
    {
        match *scope {
            None => SpanHandle::noop(),
            Some(s) => {
                let id = new_uuid();
                let now = now_micros();
                let started = monotonic_now();
                SpanHandle::new(
                    scope,
                    s.txn,
                    name.to_string(),
                    span_type.to_string(),
                    None,
                    Some(s.current_span),
                    metadata,
                    id,
                    now,
                    started,
                )
            },
        }
    }

    /// The transaction of the current scope, for passing to spawned tasks;
    /// `None` outside any transaction.
    pub fn current_context(&self, scope: &Option<SpanScope>) -> (r: Option<TxnRef>)
        ensures
            r == match *scope {
                Some(s) => Some(s.txn),
                None => None,
            },
    {
        match scope {
            Some(s) => Some(s.txn),
            None => None,
        }
    }
}

/// Configuration of the APM subsystem, with the adapter `A` that formats
/// entries.
pub struct ApmConfig<A> {
    pub service: Arc<ServiceContext>,
    pub log_path: String,
    /// Header carrying cross-service correlation IDs; `None` turns
    /// correlation handling off.
    pub correlation_id_header: Option<String>,
    /// The adapter that formats entries; `None` selects the default JSON
    /// adapter.
    pub adapter: Option<A>,
}

/// Fluent builder for [`ApmConfig`].
pub struct ApmConfigBuilder<A> {
    pub service: ServiceContext,
    pub log_path: Option<String>,
    pub correlation_id_header: Option<String>,
    pub adapter: Option<A>,
}

/// `apm.ndjson`
pub open spec fn default_apm_log_path() -> Seq<char> {
    seq!['a', 'p', 'm', '.', 'n', 'd', 'j', 's', 'o', 'n']
}

/// A builder with an empty service name and nothing else set: the log path
/// defaults to `apm.ndjson` and the adapter to the default JSON one.
pub fn config<A>() -> (b: ApmConfigBuilder<A>)
    ensures
        b.service.service_name@.len() == 0,
        b.service.service_version is None,
        b.service.environment is None,
        b.service.server_name is None,
        b.service.context@.len() == 0,
        b.log_path is None,
        b.correlation_id_header is None,
        b.adapter is None,
{
    ApmConfigBuilder {
        service: ServiceContext {
            service_name: String::new(),
            service_version: None,
            environment: None,
            server_name: None,
            context: Vec::new(),
        },
        log_path: None,
        correlation_id_header: None,
        adapter: None,
    }
}

impl<A> ApmConfigBuilder<A> {
    pub fn service_name(self, name: &str) -> (b: Self)
        ensures
            b.service.service_name@ == name@,
            b.service.service_version == self.service.service_version,
            b.service.environment == self.service.environment,
            b.service.server_name == self.service.server_name,
            b.service.context == self.service.context,
            b.log_path == self.log_path,
            b.correlation_id_header == self.correlation_id_header,
            b.adapter == self.adapter,
    {
        let mut b = self;
        b.service.service_name = name.to_string();
        b
    }

    pub fn service_version(self, version: &str) -> (b: Self)
        ensures
            b.service.service_version is Some && b.service.service_version->0@ == version@,
            b.service.service_name == self.service.service_name,
            b.service.environment == self.service.environment,
            b.service.server_name == self.service.server_name,
            b.service.context == self.service.context,
            b.log_path == self.log_path,
            b.correlation_id_header == self.correlation_id_header,
            b.adapter == self.adapter,
    {
        let mut b = self;
        b.service.service_version = Some(version.to_string());
        b
    }

    pub fn environment(self, env: &str) -> (b: Self)
        ensures
            b.service.environment is Some && b.service.environment->0@ == env@,
            b.service.service_name == self.service.service_name,
            b.service.service_version == self.service.service_version,
            b.service.server_name == self.service.server_name,
            b.service.context == self.service.context,
            b.log_path == self.log_path,
            b.correlation_id_header == self.correlation_id_header,
            b.adapter == self.adapter,
    {
        let mut b = self;
        b.service.environment = Some(env.to_string());
        b
    }

    pub fn server_name(self, name: &str) -> (b: Self)
        ensures
            b.service.server_name is Some && b.service.server_name->0@ == name@,
            b.service.service_name == self.service.service_name,
            b.service.service_version == self.service.service_version,
            b.service.environment == self.service.environment,
            b.service.context == self.service.context,
            b.log_path == self.log_path,
            b.correlation_id_header == self.correlation_id_header,
            b.adapter == self.adapter,
    {
        let mut b = self;
        b.service.server_name = Some(name.to_string());
        b
    }

    pub fn log_path(self, path: &str) -> (b: Self)
        ensures
            b.log_path is Some && b.log_path->0@ == path@,
            b.service == self.service,
            b.correlation_id_header == self.correlation_id_header,
            b.adapter == self.adapter,
    {
        let mut b = self;
        b.log_path = Some(path.to_string());
        b
    }

    /// Set the header used for correlation IDs (e.g. `"X-Correlation-ID"`).
    pub fn correlation_id_header(self, header: &str) -> (b: Self)
        ensures
            b.correlation_id_header is Some && b.correlation_id_header->0@ == header@,
            b.service == self.service,
            b.log_path == self.log_path,
            b.adapter == self.adapter,
    {
        let mut b = self;
        b.correlation_id_header = Some(header.to_string());
        b
    }

    /// Set the adapter that formats entries.
    pub fn adapter(self, adapter: A) -> (b: Self)
        ensures
            b.adapter == Some(adapter),
            b.service == self.service,
            b.log_path == self.log_path,
            b.correlation_id_header == self.correlation_id_header,
    {
        let mut b = self;
        b.adapter = Some(adapter);
        b
    }

    /// The configuration; the log path defaults to `apm.ndjson`, the
    /// adapter (`None`) to the default JSON one.
    pub fn build(self) -> (c: ApmConfig<A>)
        ensures
            c.service == self.service,
            c.log_path@ == match self.log_path {
                Some(p) => p@,
                None => default_apm_log_path(),
            },
            c.correlation_id_header == self.correlation_id_header,
            c.adapter == self.adapter,
    {
        let log_path = match self.log_path {
            Some(p) => p,
            None => {
                proof { reveal_strlit("apm.ndjson"); }
                "apm.ndjson".to_string()
            },
        };
        ApmConfig {
            service: Arc::new(self.service),
            log_path,
            correlation_id_header: self.correlation_id_header,
            adapter: self.adapter,
        }
    }
}


/// The scope after a span with identifier `id` opens in `s`.
pub open spec fn scope_after_open(s: SpanScope, id: u128) -> SpanScope {
    SpanScope { txn: s.txn, current_span: id }
}

/// Spans nest: opening `a` then `b` inside it, then ending `b` and `a`,
/// makes `a` current again after `b` ends and leaves the scope as it was
/// after `a` ends.
pub proof fn law_nested_spans_restore(s: SpanScope, a: u128, b: u128)
    ensures
        scope_after_end(Some(scope_after_open(scope_after_open(s, a), b)), Some(a)) == Some(
            scope_after_open(s, a),
        ),
        scope_after_end(Some(scope_after_open(s, a)), Some(s.current_span)) == Some(s),
{
}

/// Without a configured APM nothing is written; with one, transactions
/// carry its service context and spans are written unchanged.
pub proof fn law_send_entry(service: Arc<ServiceContext>, t: TransactionRecord, sp: SpanRecord)
    ensures
        stamped(None, ApmEntry::Transaction(t)) is None,
        stamped(None, ApmEntry::Span(sp)) is None,
        stamped(Some(service), ApmEntry::Span(sp)) == Some(ApmEntry::Span(sp)),
        match stamped(Some(service), ApmEntry::Transaction(t)) {
            Some(ApmEntry::Transaction(t2)) => t2.service == Some(service) && t2.id == t.id
                && t2.name == t.name && t2.metadata == t.metadata,
            _ => false,
        },
{
}

} // verus!
