use aralez::access_log::DefaultAccessLog;
use aralez::custom_access_log::CustomAccessLog;
use aralez::interface::{AccessLog, ClientIp, HttpVersion, LogMessage};
use aralez::ip::ip_string;
use aralez::logging::{access_log, init_access_log, logs_response, AccessLogSetting, LogContext, LogLevel};
use http::{HeaderMap, HeaderValue};
use std::sync::Arc;

fn context(matched_path: Option<&str>) -> LogContext {
    LogContext {
        matched_path: matched_path.map(|p| Arc::new(p.to_string())),
        backend_id: Some("b1".to_string()),
        start_time: tokio::time::Instant::now(),
        upstream_peer: None,
        client_headers: None,
        x4xx_limit: Some(3),
    }
}

fn message(headers: HeaderMap, matched_path: Option<&str>) -> LogMessage {
    let ctx = context(matched_path);
    LogMessage {
        response_code: 200,
        summary: "GET /index.html".to_string(),
        client_ip: ClientIp::V4([192, 168, 1, 20]),
        version: HttpVersion::Http11,
        headers,
        matched_path: ctx.matched_path,
        backend_id: ctx.backend_id,
        start_time: ctx.start_time,
        upstream_peer: ctx.upstream_peer,
        client_headers: ctx.client_headers,
        x4xx_limit: ctx.x4xx_limit,
    }
}

fn with_agent(agent: &[u8]) -> HeaderMap {
    let mut headers = HeaderMap::new();
    headers.insert("user-agent", HeaderValue::from_bytes(agent).unwrap());
    headers
}

#[test]
fn default_line_has_every_field() {
    let line = DefaultAccessLog::info(message(with_agent(b"curl/8.5.0"), None));
    assert_eq!(line, "200, GET /index.html, client: 192.168.1.20, version: HTTP/1.1, useragent: curl/8.5.0");
}

#[test]
fn missing_user_agent_is_a_dash() {
    let line = DefaultAccessLog::info(message(HeaderMap::new(), None));
    assert_eq!(line, "200, GET /index.html, client: 192.168.1.20, version: HTTP/1.1, useragent: -");
}

#[test]
fn user_agent_that_is_not_visible_ascii_is_a_dash() {
    let line = DefaultAccessLog::info(message(with_agent(b"caf\xc3\xa9"), None));
    assert!(line.ends_with("useragent: -"));
    let tabbed = DefaultAccessLog::info(message(with_agent(b"a\tb"), None));
    assert!(tabbed.ends_with("useragent: a\tb"));
}

#[test]
fn first_user_agent_is_written() {
    let mut headers = HeaderMap::new();
    headers.append("user-agent", HeaderValue::from_static("first"));
    headers.append("user-agent", HeaderValue::from_static("second"));
    headers.insert("accept", HeaderValue::from_static("*/*"));
    let line = DefaultAccessLog::info(message(headers, None));
    assert!(line.ends_with("useragent: first"));
}

#[test]
fn versions_are_written_as_http_writes_them() {
    let cases = [
        (HttpVersion::Http09, "HTTP/0.9"),
        (HttpVersion::Http10, "HTTP/1.0"),
        (HttpVersion::Http11, "HTTP/1.1"),
        (HttpVersion::Http2, "HTTP/2.0"),
        (HttpVersion::Http3, "HTTP/3.0"),
    ];
    for (version, text) in cases {
        let mut msg = message(HeaderMap::new(), None);
        msg.version = version;
        let expected = format!("{:?}", http_version(version));
        assert_eq!(expected, text);
        assert!(DefaultAccessLog::info(msg).contains(&format!("version: {text},")));
    }
}

fn http_version(v: HttpVersion) -> http::Version {
    match v {
        HttpVersion::Http09 => http::Version::HTTP_09,
        HttpVersion::Http10 => http::Version::HTTP_10,
        HttpVersion::Http11 => http::Version::HTTP_11,
        HttpVersion::Http2 => http::Version::HTTP_2,
        HttpVersion::Http3 => http::Version::HTTP_3,
    }
}

#[test]
fn custom_line_adds_the_matched_path() {
    let line = CustomAccessLog::info(message(with_agent(b"curl/8.5.0"), Some("/api/*")));
    assert_eq!(
        line,
        "200, GET /index.html, client: 192.168.1.20, version: HTTP/1.1, useragent: curl/8.5.0, matched_path: /api/*"
    );
    let none = CustomAccessLog::info(message(HeaderMap::new(), None));
    assert!(none.ends_with("useragent: -, matched_path: -"));
}

#[test]
fn custom_line_starts_with_the_default_line() {
    let default = DefaultAccessLog::info(message(with_agent(b"x"), Some("/a")));
    let custom = CustomAccessLog::info(message(with_agent(b"x"), Some("/a")));
    assert!(custom.starts_with(&default));
    assert!(custom.len() > default.len());
}

#[test]
fn ipv4_is_dotted_decimal() {
    assert_eq!(ip_string(&ClientIp::V4([127, 0, 0, 1])), "127.0.0.1");
    assert_eq!(ip_string(&ClientIp::V4([0, 0, 0, 0])), "0.0.0.0");
    assert_eq!(ip_string(&ClientIp::V4([255, 10, 100, 9])), "255.10.100.9");
}

#[test]
fn ipv6_compresses_the_first_longest_zero_run() {
    assert_eq!(ip_string(&ClientIp::V6([0, 0, 0, 0, 0, 0, 0, 1])), "::1");
    assert_eq!(ip_string(&ClientIp::V6([0; 8])), "::");
    assert_eq!(ip_string(&ClientIp::V6([0x2001, 0xdb8, 0, 0, 0, 0, 0, 1])), "2001:db8::1");
    assert_eq!(ip_string(&ClientIp::V6([1, 0, 0, 2, 0, 0, 0, 3])), "1:0:0:2::3");
    assert_eq!(ip_string(&ClientIp::V6([1, 0, 0, 2, 0, 0, 3, 4])), "1::2:0:0:3:4");
    assert_eq!(ip_string(&ClientIp::V6([1, 0, 0, 0, 0, 0, 0, 0])), "1::");
    assert_eq!(ip_string(&ClientIp::V6([1, 0, 2, 0, 3, 0, 4, 0])), "1:0:2:0:3:0:4:0");
    assert_eq!(ip_string(&ClientIp::V6([0xfe80, 0, 0, 0, 0xabcd, 0xef, 0x12, 0x3400])), "fe80::abcd:ef:12:3400");
}

#[test]
fn ipv4_mapped_ipv6_ends_in_dotted_decimal() {
    assert_eq!(ip_string(&ClientIp::V6([0, 0, 0, 0, 0, 0xffff, 0xc000, 0x0201])), "::ffff:192.0.2.1");
    assert_eq!(ip_string(&ClientIp::V6([0, 0, 0, 0, 0, 0xffff, 0, 0])), "::ffff:0.0.0.0");
    assert_eq!(ip_string(&ClientIp::V6([0, 0, 0, 0, 0, 0, 0xc000, 0x0201])), "::c000:201");
}

#[test]
fn access_level_names() {
    assert_eq!(LogLevel::from_str("all"), LogLevel::Access);
    assert_eq!(LogLevel::from_str("error"), LogLevel::Error);
    assert_eq!(LogLevel::from_str("ALL"), LogLevel::Off);
    assert_eq!(LogLevel::from_str("none"), LogLevel::Off);
    assert_eq!(LogLevel::from_str(""), LogLevel::Off);
}

#[test]
fn access_level_is_set_once() {
    let mut setting = AccessLogSetting::new();
    assert_eq!(setting.get(), None);
    assert_eq!(setting.level(), LogLevel::Off);
    init_access_log(&mut setting, "error");
    assert_eq!(setting.get(), Some(LogLevel::Error));
    init_access_log(&mut setting, "all");
    assert_eq!(setting.level(), LogLevel::Error);
}

#[test]
fn error_level_records_statuses_outside_1xx_to_3xx() {
    assert!(logs_response(LogLevel::Error, 404));
    assert!(logs_response(LogLevel::Error, 500));
    assert!(logs_response(LogLevel::Error, 400));
    assert!(logs_response(LogLevel::Error, 99));
    assert!(logs_response(LogLevel::Error, 0));
    assert!(!logs_response(LogLevel::Error, 100));
    assert!(!logs_response(LogLevel::Error, 200));
    assert!(!logs_response(LogLevel::Error, 399));
    assert!(logs_response(LogLevel::Access, 200));
    assert!(!logs_response(LogLevel::Off, 500));
}

#[test]
fn unset_level_records_nothing() {
    let setting = AccessLogSetting::new();
    let msg = access_log(&setting, 500, "boom", None, HttpVersion::Http11, HeaderMap::new(), context(None));
    assert!(msg.is_none());
}

#[test]
fn record_carries_the_request() {
    let mut setting = AccessLogSetting::new();
    init_access_log(&mut setting, "all");
    let msg = access_log(&setting, 201, "POST /x", None, HttpVersion::Http2, with_agent(b"ua"), context(Some("/x")))
        .expect("recorded");
    assert_eq!(msg.response_code, 201);
    assert_eq!(msg.summary, "POST /x");
    assert!(matches!(msg.client_ip, ClientIp::V4([127, 0, 0, 1])));
    assert_eq!(msg.version, HttpVersion::Http2);
    assert_eq!(msg.matched_path.as_deref().map(|s| s.as_str()), Some("/x"));
    assert_eq!(msg.backend_id.as_deref(), Some("b1"));
    assert_eq!(msg.x4xx_limit, Some(3));
    assert_eq!(
        DefaultAccessLog::info(msg),
        "201, POST /x, client: 127.0.0.1, version: HTTP/2.0, useragent: ua"
    );
}

#[test]
fn error_level_skips_successful_responses() {
    let mut setting = AccessLogSetting::new();
    init_access_log(&mut setting, "error");
    let ip = Some(ClientIp::V6([0, 0, 0, 0, 0, 0, 0, 1]));
    assert!(access_log(&setting, 200, "ok", ip, HttpVersion::Http11, HeaderMap::new(), context(None)).is_none());
    let msg = access_log(&setting, 503, "down", ip, HttpVersion::Http11, HeaderMap::new(), context(None)).unwrap();
    assert_eq!(DefaultAccessLog::info(msg), "503, down, client: ::1, version: HTTP/1.1, useragent: -");
}
