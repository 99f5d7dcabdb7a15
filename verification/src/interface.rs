//! The interface shared by the logger modules and the access logs: the
//! handle that keeps a logger alive, the logger-module and access-log
//! traits, and the access-log record.

use std::sync::Arc;
use vstd::prelude::*;

verus! {

/// A value that may be kept alive on behalf of a logger, from any thread.
pub trait Retained: Send + Sync {}

impl<T: Send + Sync + 'static> Retained for T {}

/// Keeps whatever a logger module's initialisation returned alive for as
/// long as the application runs; it may also hold nothing.
pub struct ApplicationLogHandle {
    _inner: Option<Box<dyn Retained>>,
}

impl ApplicationLogHandle {
    /// Whether the handle keeps a value alive.
    pub closed spec fn holds_value(&self) -> bool {
        self._inner is Some
    }

    /// A handle that keeps `handle` alive.
    pub fn new<T: Send + Sync + 'static>(handle: T) -> (res: Self)
        ensures
            res.holds_value(),
    {
        Self { _inner: Some(Box::new(handle)) }
    }

    /// A handle that keeps nothing alive.
    pub fn empty() -> (res: Self)
        ensures
            !res.holds_value(),
    {
        Self { _inner: None }
    }
}

/// The most verbose level of records that a logger lets through, as
/// `log::LevelFilter` names them.
#[derive(Clone, Copy, Debug, PartialEq, Eq, Structural)]
pub enum LevelFilter {
    Off,
    Error,
    Warn,
    Info,
    Debug,
    Trace,
}

/// Where a logger writes its records.
pub enum LogTarget {
    /// Standard output.
    Console,
    /// One file, appended to.
    File { path: String },
    /// A file that is rolled over once it reaches `max_size_bytes`: the
    /// archives are named by `roll_pattern` with `{}` standing for the
    /// archive number, numbered from `first_index`, and at most `count` are
    /// kept.
    RollingFile { path: String, max_size_bytes: u64, roll_pattern: String, first_index: u32, count: u32 },
}

/// What initialising a logger installs: one appender named `appender`
/// writing to `target` with the record layout `pattern`, attached to the
/// root logger at `level`. `retain_handle` says whether the application
/// log handle keeps the installed logger's handle or holds nothing.
pub struct LoggerSetup {
    pub appender: String,
    pub pattern: String,
    pub target: LogTarget,
    pub level: LevelFilter,
    pub retain_handle: bool,
}

/// A logger module: built from the configured level name, optional output
/// location and optional extra setting, then initialised once.
pub trait LoggerModule: Sized {
    /// Whether `init` can be called on this logger.
    spec fn can_init(&self) -> bool;

    fn new(level_str: &str, location: Option<String>, config: Option<String>) -> Self;

    /// Tells whether `init` can be called on this logger.
    fn init_allowed(&self) -> (res: bool)
        ensures
            res == self.can_init(),
    ;

    /// The logger configuration that initialisation installs.
    fn init(self) -> LoggerSetup
        requires
            self.can_init(),
    ;
}

/// An access-log writer.
pub trait AccessLog {
    /// The line that is written for `msg` at the info level.
    fn info(msg: LogMessage) -> String;
}

/// The HTTP version of a request, as `http::Version` names them.
#[derive(Clone, Copy, Debug, PartialEq, Eq, Structural)]
pub enum HttpVersion {
    Http09,
    Http10,
    Http11,
    Http2,
    Http3,
}

/// The address of a client: the four octets of an IPv4 address or the
/// eight 16-bit segments of an IPv6 address.
#[derive(Clone, Copy, Debug)]
pub enum ClientIp {
    V4([u8; 4]),
    V6([u16; 8]),
}

/// One access-log record, handed from the request path to the log writer.
#[derive(Debug)]
pub struct LogMessage {
    pub response_code: u16,
    pub summary: String,
    pub client_ip: ClientIp,
    pub version: HttpVersion,
    pub headers: http::HeaderMap<http::HeaderValue>,
    pub matched_path: Option<Arc<String>>,
    pub backend_id: Option<String>,
    pub start_time: tokio::time::Instant,
    pub upstream_peer: Option<serde_json::Value>,
    pub client_headers: Option<Vec<(String, Arc<str>)>>,
    pub x4xx_limit: Option<u32>,
}

} // verus!
