//! The access-log switch and the assembly of access-log records: the
//! level is set once at start-up, and each finished request is turned into
//! a record when the level asks for it.

use crate::interface::{ClientIp, HttpVersion, LogMessage};
use crate::text::{chars_eq, chars_of};
use std::sync::Arc;
use vstd::prelude::*;

verus! {

/// Which responses the access log records.
#[derive(Clone, Copy, Debug, PartialEq, Eq, Structural)]
pub enum LogLevel {
    /// Every response.
    Access,
    /// Responses whose status is not 1xx, 2xx or 3xx.
    Error,
    /// No response: the access log is off.
    Off,
}

/// The access-log level that a configured name selects: `all` and `error`
/// name levels, anything else turns the access log off.
pub open spec fn access_level_named(name: Seq<char>) -> LogLevel {
    if name == "all"@ {
        LogLevel::Access
    } else if name == "error"@ {
        LogLevel::Error
    } else {
        LogLevel::Off
    }
}

impl LogLevel {
    pub fn from_str(s: &str) -> (res: Self)
        ensures
            res == access_level_named(s@),
    {
        let v = chars_of(s);
        if chars_eq(&v, &chars_of("all")) {
            LogLevel::Access
        } else if chars_eq(&v, &chars_of("error")) {
            LogLevel::Error
        } else {
            LogLevel::Off
        }
    }
}

/// Whether a response with status `code` is recorded at `level`.
pub open spec fn should_log(level: LogLevel, code: u16) -> bool {
    match level {
        LogLevel::Access => true,
        LogLevel::Off => false,
        LogLevel::Error => !(100 <= code && code <= 399),
    }
}

/// Whether a response with status `code` is recorded at `level`.
pub fn logs_response(level: LogLevel, code: u16) -> (res: bool)
    ensures
        res == should_log(level, code),
{
    match level {
        LogLevel::Access => true,
        LogLevel::Off => false,
        LogLevel::Error => !(100 <= code && code <= 399),
    }
}

/// The access-log level of the process: unset until the first
/// `init_access_log`, and never changed after it.
pub struct AccessLogSetting {
    level: Option<LogLevel>,
}

impl View for AccessLogSetting {
    type V = Option<LogLevel>;

    closed spec fn view(&self) -> Option<LogLevel> {
        self.level
    }
}

/// The level in force: the one set, or `Off` before any is set.
pub open spec fn effective_level(setting: Option<LogLevel>) -> LogLevel {
    match setting {
        Some(level) => level,
        None => LogLevel::Off,
    }
}

/// The setting after `init_access_log(level_str)`: a level that is already
/// set stays.
pub open spec fn after_init(setting: Option<LogLevel>, level_str: Seq<char>) -> Option<LogLevel> {
    match setting {
        Some(level) => Some(level),
        None => Some(access_level_named(level_str)),
    }
}

impl AccessLogSetting {
    /// A setting with no level yet.
    pub fn new() -> (res: Self)
        ensures
            res@ is None,
    {
        AccessLogSetting { level: None }
    }

    /// The level set, if any.
    pub fn get(&self) -> (res: Option<LogLevel>)
        ensures
            res == self@,
    {
        self.level
    }

    /// The level in force.
    pub fn level(&self) -> (res: LogLevel)
        ensures
            res == effective_level(self@),
    {
        match self.level {
            Some(level) => level,
            None => LogLevel::Off,
        }
    }
}

/// Sets the access-log level from its configured name, unless one is set.
pub fn init_access_log(setting: &mut AccessLogSetting, level_str: &str)
    ensures
        final(setting)@ == after_init(old(setting)@, level_str@),
{
    let level = LogLevel::from_str(level_str);
    if setting.level.is_none() {
        setting.level = Some(level);
    }
}

/// Setting the level a second time leaves the first level in force.
pub proof fn lemma_access_level_set_once(setting: Option<LogLevel>, first: Seq<char>, second: Seq<char>)
    ensures
        after_init(after_init(setting, first), second) == after_init(setting, first),
        after_init(setting, first) is Some,
{
}

/// On a fresh setting, the first configured name decides which responses
/// are recorded, whatever is configured afterwards: `all` records every
/// response, `error` those whose status is not 1xx to 3xx, and any other
/// name none.
pub proof fn lemma_first_name_decides(first: Seq<char>, later: Seq<char>, code: u16)
    ensures
        should_log(effective_level(after_init(after_init(None, first), later)), code) == if first
            == "all"@ {
            true
        } else if first == "error"@ {
            !(100 <= code && code <= 399)
        } else {
            false
        },
{
}

/// What a record takes from the proxy's per-request context.
pub struct LogContext {
    pub matched_path: Option<Arc<String>>,
    pub backend_id: Option<String>,
    pub start_time: tokio::time::Instant,
    pub upstream_peer: Option<serde_json::Value>,
    pub client_headers: Option<Vec<(String, Arc<str>)>>,
    pub x4xx_limit: Option<u32>,
}

/// The address recorded for a client: its IP address, or 127.0.0.1 when
/// the connection has none.
pub open spec fn recorded_client(client_addr: Option<ClientIp>) -> ClientIp {
    match client_addr {
        Some(ip) => ip,
        None => ClientIp::V4([127u8, 0u8, 0u8, 1u8]),
    }
}

/// A client that has an address is recorded under that address, IPv4 and
/// IPv6 alike; 127.0.0.1 stands only for a connection without one.
pub proof fn lemma_recorded_client_is_the_address(ip: ClientIp)
    ensures
        recorded_client(Some(ip)) == ip,
        recorded_client(None) == ClientIp::V4([127u8, 0u8, 0u8, 1u8]),
{
}

/// The record of a finished request, when the access-log level asks for
/// one; `None` otherwise.
pub fn access_log(
    setting: &AccessLogSetting,
    response_code: u16,
    summary: &str,
    client_addr: Option<ClientIp>,
    version: HttpVersion,
    headers: http::HeaderMap<http::HeaderValue>,
    ctx: LogContext,
) -> (res: Option<LogMessage>)
    ensures
        res is Some <==> should_log(effective_level(setting@), response_code),
        res matches Some(msg) ==> {
            &&& msg.response_code == response_code
            &&& msg.summary@ == summary@
            &&& msg.client_ip == recorded_client(client_addr)
            &&& msg.version == version
            &&& msg.headers == headers
            &&& msg.matched_path == ctx.matched_path
            &&& msg.backend_id == ctx.backend_id
            &&& msg.start_time == ctx.start_time
            &&& msg.upstream_peer == ctx.upstream_peer
            &&& msg.client_headers == ctx.client_headers
            &&& msg.x4xx_limit == ctx.x4xx_limit
        },
{
    if !logs_response(setting.level(), response_code) {
        return None;
    }
    let client_ip = match client_addr {
        Some(ip) => ip,
        None => ClientIp::V4([127u8, 0u8, 0u8, 1u8]),
    };
    Some(
        LogMessage {
            response_code: response_code,
            summary: summary.to_owned(),
            client_ip: client_ip,
            version: version,
            headers: headers,
            matched_path: ctx.matched_path,
            backend_id: ctx.backend_id,
            start_time: ctx.start_time,
            upstream_peer: ctx.upstream_peer,
            client_headers: ctx.client_headers,
            x4xx_limit: ctx.x4xx_limit,
        },
    )
}

} // verus!
