use std::sync::Arc;
use vstd::prelude::*;
use crate::apm::{Metadata, ServiceContext};
use crate::sys::{now_micros, share_service};

verus! {

/// Severity of a log entry, from least to most severe.
#[derive(Clone, Copy, PartialEq, Eq, Structural, Debug)]
pub enum LogLevel {
    Trace,
    Debug,
    Info,
    Warn,
    Error,
}

impl LogLevel {
    /// Position of the level in the severity order.
    pub open spec fn rank(self) -> nat {
        match self {
            LogLevel::Trace => 0,
            LogLevel::Debug => 1,
            LogLevel::Info => 2,
            LogLevel::Warn => 3,
            LogLevel::Error => 4,
        }
    }

    /// Position of the level in the severity order.
    pub fn severity(&self) -> (r: u8)
        ensures
            r == self.rank(),
    {
        match self {
            LogLevel::Trace => 0,
            LogLevel::Debug => 1,
            LogLevel::Info => 2,
            LogLevel::Warn => 3,
            LogLevel::Error => 4,
        }
    }

    /// Whether `self` is less severe than `other`.
    pub fn is_below(&self, other: &LogLevel) -> (r: bool)
        ensures
            r == (self.rank() < other.rank()),
    {
        self.severity() < other.severity()
    }
}

/// Per-call options of a log call.
pub struct LogOptions {
    /// Overrides the default classification when set.
    pub classification: Option<String>,
    /// Extra structured context attached to the entry.
    pub context: Option<Metadata>,
}

impl Default for LogOptions {
    fn default() -> (r: Self)
        ensures
            r.classification is None,
            r.context is None,
    {
        LogOptions { classification: None, context: None }
    }
}

/// A log entry, ready for formatting and writing.
pub struct LogEntry {
    /// Wall-clock time, microseconds since the Unix epoch.
    pub timestamp: i64,
    pub level: LogLevel,
    pub message: String,
    pub classification: String,
    pub correlation_id: Option<String>,
    pub service: Arc<ServiceContext>,
    pub context: Metadata,
}

/// The configured logger state that every log call reads.
pub struct LoggerState {
    pub service: Arc<ServiceContext>,
    /// Entries below this level are dropped.
    pub min_level: LogLevel,
    /// Classification used when a call names none.
    pub default_classification: String,
    /// The classifications that have a writer, in configuration order.
    pub classifications: Vec<String>,
}

/// The header name used for correlation IDs when none is configured.
pub open spec fn default_correlation_header() -> Seq<char> {
    seq!['X', '-', 'C', 'o', 'r', 'r', 'e', 'l', 'a', 't', 'i', 'o', 'n', '-', 'I', 'D']
}

/// The entry a log call produces, given the state, the call's arguments and
/// the time and correlation ID at the call.
pub open spec fn entry_spec(
    state: LoggerState,
    level: LogLevel,
    message: String,
    options: Option<LogOptions>,
    correlation_id: Option<String>,
    e: LogEntry,
) -> bool {
    &&& e.level == level
    &&& e.message == message
    &&& e.classification@ == match options {
        Some(o) => match o.classification {
            Some(c) => c@,
            None => state.default_classification@,
        },
        None => state.default_classification@,
    }
    &&& e.correlation_id == correlation_id
    &&& e.service == state.service
    &&& e.context@ == match options {
        Some(o) => match o.context {
            Some(c) => c@,
            None => Seq::empty(),
        },
        None => Seq::empty(),
    }
}

/// The application logger: a zero-sized handle to the configured state.
#[derive(Clone, Copy, Debug)]
pub struct Logger;

impl Default for Logger {
    fn default() -> (r: Self)
        ensures
            r == Logger,
    {
        Logger
    }
}

impl Logger {
    /// A new logger handle, shared for registration in a container.
    pub fn new() -> (r: Arc<Self>)
        ensures
            *r == Logger,
    {
        Arc::new(Logger)
    }

    /// The entry for a log call at `level`, or `None` when `level` is below
    /// the configured minimum. The classification is the call's override or
    /// the default one; the correlation ID is that of the current request.
    pub fn log(
        &self,
        state: &LoggerState,
        level: LogLevel,
        message: String,
        options: Option<LogOptions>,
        correlation_id: Option<String>,
    ) -> (r: Option<LogEntry>)
        ensures
            level.rank() < state.min_level.rank() <==> r is None,
            r is Some ==> entry_spec(*state, level, message, options, correlation_id, r->0),
    {
        if level.is_below(&state.min_level) {
            return None;
        }
        let opts = match options {
            Some(o) => o,
            None => LogOptions::default(),
        };
        let classification = match opts.classification {
            Some(c) => c,
            None => state.default_classification.clone(),
        };
        let context = match opts.context {
            Some(c) => c,
            None => Vec::new(),
        };
        let timestamp = now_micros();
        Some(
            LogEntry {
                timestamp,
                level,
                message,
                classification,
                correlation_id,
                service: share_service(&state.service),
                context,
            },
        )
    }

    pub fn trace(
        &self,
        state: &LoggerState,
        message: String,
        options: Option<LogOptions>,
        correlation_id: Option<String>,
    ) -> (r: Option<LogEntry>)
        ensures
            0 < state.min_level.rank() <==> r is None,
            r is Some ==> entry_spec(
                *state,
                LogLevel::Trace,
                message,
                options,
                correlation_id,
                r->0,
            ),
    {
        self.log(state, LogLevel::Trace, message, options, correlation_id)
    }

    pub fn debug(
        &self,
        state: &LoggerState,
        message: String,
        options: Option<LogOptions>,
        correlation_id: Option<String>,
    ) -> (r: Option<LogEntry>)
        ensures
            1 < state.min_level.rank() <==> r is None,
            r is Some ==> entry_spec(
                *state,
                LogLevel::Debug,
                message,
                options,
                correlation_id,
                r->0,
            ),
    {
        self.log(state, LogLevel::Debug, message, options, correlation_id)
    }

    pub fn info(
        &self,
        state: &LoggerState,
        message: String,
        options: Option<LogOptions>,
        correlation_id: Option<String>,
    ) -> (r: Option<LogEntry>)
        ensures
            2 < state.min_level.rank() <==> r is None,
            r is Some ==> entry_spec(
                *state,
                LogLevel::Info,
                message,
                options,
                correlation_id,
                r->0,
            ),
    {
        self.log(state, LogLevel::Info, message, options, correlation_id)
    }

    pub fn warn(
        &self,
        state: &LoggerState,
        message: String,
        options: Option<LogOptions>,
        correlation_id: Option<String>,
    ) -> (r: Option<LogEntry>)
        ensures
            3 < state.min_level.rank() <==> r is None,
            r is Some ==> entry_spec(
                *state,
                LogLevel::Warn,
                message,
                options,
                correlation_id,
                r->0,
            ),
    {
        self.log(state, LogLevel::Warn, message, options, correlation_id)
    }

    pub fn error(
        &self,
        state: &LoggerState,
        message: String,
        options: Option<LogOptions>,
        correlation_id: Option<String>,
    ) -> (r: Option<LogEntry>)
        ensures
            r is Some,
            entry_spec(*state, LogLevel::Error, message, options, correlation_id, r->0),
    {
        self.log(state, LogLevel::Error, message, options, correlation_id)
    }

    /// The correlation ID header name: the configured one, or
    /// `"X-Correlation-ID"` when the logger is not configured.
    pub fn correlation_id_header(configured: Option<&str>) -> (r: &str)
        ensures
            r@ == match configured {
                Some(h) => h@,
                None => default_correlation_header(),
            },
    {
        match configured {
            Some(h) => h,
            None => {
                proof { reveal_strlit("X-Correlation-ID"); }
                "X-Correlation-ID"
            },
        }
    }
}

/// The writer an entry goes to: the index of the last configured
/// classification of its name (a later file for the same name replaces an
/// earlier one), or `None` when no writer is configured for it (the entry
/// is then dropped with a warning).
pub fn dispatch(state: &LoggerState, entry: &LogEntry) -> (r: Option<usize>)
    ensures
        match r {
            Some(i) => i < state.classifications@.len() && state.classifications@[i as int]@
                == entry.classification@ && forall|j: int|
                i < j < state.classifications@.len() ==> state.classifications@[j]@
                    != entry.classification@,
            None => forall|i: int|
                0 <= i < state.classifications@.len() ==> state.classifications@[i]@
                    != entry.classification@,
        },
{
    let mut i: usize = state.classifications.len();
    while i > 0
        invariant
            i <= state.classifications@.len(),
            forall|j: int|
                i <= j < state.classifications@.len() ==> state.classifications@[j]@
                    != entry.classification@,
        decreases i,
    {
        i = i - 1;
        if state.classifications[i] == entry.classification {
            return Some(i);
        }
    }
    None
}


/// The level filter is monotone: when an entry at `level` passes the
/// minimum, every more severe entry passes it too.
pub proof fn law_level_filter_monotone(min: LogLevel, level: LogLevel, more_severe: LogLevel)
    requires
        level.rank() <= more_severe.rank(),
        !(level.rank() < min.rank()),
    ensures
        !(more_severe.rank() < min.rank()),
{
}

/// Errors are never filtered out, whatever the minimum level.
pub proof fn law_errors_always_pass(min: LogLevel)
    ensures
        !(LogLevel::Error.rank() < min.rank()),
{
}

/// A classification and the file its entries go to.
pub struct Classification {
    pub name: String,
    pub log_path: String,
}

/// Configuration of the logger.
pub struct LoggerConfig {
    pub service: ServiceContext,
    pub min_level: LogLevel,
    pub default_classification: String,
    pub classifications: Vec<Classification>,
    pub correlation_id_header: Option<String>,
}

/// `PUBLIC`
pub open spec fn default_classification_name() -> Seq<char> {
    "PUBLIC"@
}

/// Fluent builder for [`LoggerConfig`].
pub struct LoggerConfigBuilder {
    pub config: LoggerConfig,
}

/// A builder with an empty service name, minimum level `Info`, default
/// classification `PUBLIC`, no classification files and no correlation
/// header.
pub fn config() -> (b: LoggerConfigBuilder)
    ensures
        b.config.service.service_name@.len() == 0,
        b.config.min_level == LogLevel::Info,
        b.config.default_classification@ == default_classification_name(),
        b.config.classifications@.len() == 0,
        b.config.correlation_id_header is None,
{
    LoggerConfigBuilder {
        config: LoggerConfig {
            service: ServiceContext {
                service_name: String::new(),
                service_version: None,
                environment: None,
                server_name: None,
                context: Vec::new(),
            },
            min_level: LogLevel::Info,
            default_classification: "PUBLIC".to_string(),
            classifications: Vec::new(),
            correlation_id_header: None,
        },
    }
}

impl LoggerConfigBuilder {
    pub fn service_name(self, name: &str) -> (b: Self)
        ensures
            b.config.service.service_name@ == name@,
            b.config.min_level == self.config.min_level,
            b.config.default_classification == self.config.default_classification,
            b.config.classifications == self.config.classifications,
            b.config.correlation_id_header == self.config.correlation_id_header,
    {
        let mut b = self;
        b.config.service.service_name = name.to_string();
        b
    }

    pub fn service_version(self, version: &str) -> (b: Self)
        ensures
            b.config.service.service_version is Some,
            b.config.service.service_version->0@ == version@,
            b.config.min_level == self.config.min_level,
            b.config.classifications == self.config.classifications,
    {
        let mut b = self;
        b.config.service.service_version = Some(version.to_string());
        b
    }

    pub fn environment(self, env: &str) -> (b: Self)
        ensures
            b.config.service.environment is Some,
            b.config.service.environment->0@ == env@,
            b.config.min_level == self.config.min_level,
            b.config.classifications == self.config.classifications,
    {
        let mut b = self;
        b.config.service.environment = Some(env.to_string());
        b
    }

    pub fn min_level(self, level: LogLevel) -> (b: Self)
        ensures
            b.config.min_level == level,
            b.config.default_classification == self.config.default_classification,
            b.config.classifications == self.config.classifications,
    {
        let mut b = self;
        b.config.min_level = level;
        b
    }

    /// Route entries of classification `name` to the file at `path`.
    pub fn add_classification(self, name: &str, path: &str) -> (b: Self)
        ensures
            b.config.classifications@.len() == self.config.classifications@.len() + 1,
            b.config.classifications@.drop_last() == self.config.classifications@,
            b.config.classifications@.last().name@ == name@,
            b.config.classifications@.last().log_path@ == path@,
            b.config.min_level == self.config.min_level,
            b.config.default_classification == self.config.default_classification,
    {
        let mut b = self;
        b.config.classifications.push(Classification { name: name.to_string(), log_path: path.to_string() });
        assert(b.config.classifications@.drop_last() =~= self.config.classifications@);
        b
    }

    pub fn default_classification(self, name: &str) -> (b: Self)
        ensures
            b.config.default_classification@ == name@,
            b.config.min_level == self.config.min_level,
            b.config.classifications == self.config.classifications,
    {
        let mut b = self;
        b.config.default_classification = name.to_string();
        b
    }

    pub fn correlation_id_header(self, header: &str) -> (b: Self)
        ensures
            b.config.correlation_id_header is Some,
            b.config.correlation_id_header->0@ == header@,
            b.config.min_level == self.config.min_level,
            b.config.classifications == self.config.classifications,
    {
        let mut b = self;
        b.config.correlation_id_header = Some(header.to_string());
        b
    }

    pub fn build(self) -> (c: LoggerConfig)
        ensures
            c == self.config,
    {
        self.config
    }
}

impl LoggerState {
    /// The state a configuration yields: its service, minimum level and
    /// default classification, and the names of its classifications in order.
    pub fn from_config(config: &LoggerConfig, service: Arc<ServiceContext>) -> (s: LoggerState)
        ensures
            s.service == service,
            s.min_level == config.min_level,
            s.default_classification@ == config.default_classification@,
            s.classifications@.len() == config.classifications@.len(),
            forall|i: int|
                0 <= i < s.classifications@.len() ==> s.classifications@[i]@
                    == config.classifications@[i].name@,
    {
        let mut names: Vec<String> = Vec::new();
        let mut i: usize = 0;
        while i < config.classifications.len()
            invariant
                i <= config.classifications@.len(),
                names@.len() == i,
                forall|j: int| 0 <= j < i ==> names@[j]@ == config.classifications@[j].name@,
            decreases config.classifications@.len() - i,
        {
            names.push(config.classifications[i].name.clone());
            i = i + 1;
        }
        LoggerState {
            service,
            min_level: config.min_level,
            default_classification: config.default_classification.clone(),
            classifications: names,
        }
    }
}

} // verus!
