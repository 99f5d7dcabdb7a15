//! The default access log: one line per record with the status code, the
//! summary, the client address, the HTTP version and the user agent.

use crate::interface::{AccessLog, HttpVersion, LogMessage};
use crate::ip::{ip_text, push_ip};
use crate::outside::{first_header_value, get_header_bytes, is_lowercase_header_name};
use crate::text::{decimal, push_char, push_decimal, push_str};
use vstd::prelude::*;

verus! {

/// How `http::Version` writes itself with `{:?}`.
pub open spec fn version_text(v: HttpVersion) -> Seq<char> {
    match v {
        HttpVersion::Http09 => "HTTP/0.9"@,
        HttpVersion::Http10 => "HTTP/1.0"@,
        HttpVersion::Http11 => "HTTP/1.1"@,
        HttpVersion::Http2 => "HTTP/2.0"@,
        HttpVersion::Http3 => "HTTP/3.0"@,
    }
}

/// Appends the `{:?}` text of an HTTP version.
pub fn push_version(out: &mut String, v: HttpVersion)
    ensures
        final(out)@ == old(out)@ + version_text(v),
{
    match v {
        HttpVersion::Http09 => push_str(out, "HTTP/0.9"),
        HttpVersion::Http10 => push_str(out, "HTTP/1.0"),
        HttpVersion::Http11 => push_str(out, "HTTP/1.1"),
        HttpVersion::Http2 => push_str(out, "HTTP/2.0"),
        HttpVersion::Http3 => push_str(out, "HTTP/3.0"),
    }
}

/// A byte that `HeaderValue::to_str` accepts: visible ASCII or a tab.
pub open spec fn is_visible_ascii(b: u8) -> bool {
    (32 <= b && b < 127) || b == 9
}

/// What `HeaderValue::to_str` gives for a value's bytes: the text, when
/// every byte is visible ASCII or a tab.
pub open spec fn header_text(bytes: Seq<u8>) -> Option<Seq<char>> {
    if forall|i: int| 0 <= i < bytes.len() ==> is_visible_ascii(#[trigger] bytes[i]) {
        Some(bytes.map_values(|b: u8| b as char))
    } else {
        None
    }
}

/// A header value reads as text exactly when each byte is a tab or lies in
/// 0x20..=0x7E (the space included); the text then has one character per
/// byte, with the byte's code.
pub proof fn lemma_header_text_accepts_printable_bytes(bytes: Seq<u8>)
    ensures
        header_text(bytes) is Some <==> forall|i: int|
            0 <= i < bytes.len() ==> #[trigger] bytes[i] == 9u8 || (0x20u8 <= bytes[i] && bytes[i]
                <= 0x7Eu8),
        header_text(bytes) matches Some(t) ==> t.len() == bytes.len() && forall|i: int|
            0 <= i < bytes.len() ==> #[trigger] t[i] as int == bytes[i] as int,
{
}

/// The user agent as the access log writes it: the first `user-agent`
/// value when it reads as text, `-` otherwise.
pub open spec fn user_agent_text(headers: http::HeaderMap<http::HeaderValue>) -> Seq<char> {
    match first_header_value(headers, "user-agent"@) {
        Some(bytes) => match header_text(bytes) {
            Some(text) => text,
            None => "-"@,
        },
        None => "-"@,
    }
}

/// The first user-agent value is written unchanged when every byte of it is
/// a tab or in 0x20..=0x7E, and as `-` when there is none.
pub proof fn lemma_user_agent_written_unchanged(headers: http::HeaderMap<http::HeaderValue>)
    ensures
        first_header_value(headers, "user-agent"@) is None ==> user_agent_text(headers) == "-"@,
        first_header_value(headers, "user-agent"@) matches Some(b) ==> ((forall|i: int|
            0 <= i < b.len() ==> #[trigger] b[i] == 9u8 || (0x20u8 <= b[i] && b[i] <= 0x7Eu8))
            ==> user_agent_text(headers).len() == b.len() && forall|i: int|
            0 <= i < b.len() ==> #[trigger] user_agent_text(headers)[i] as int == b[i] as int),
{
    lemma_header_text_accepts_printable_bytes(
        match first_header_value(headers, "user-agent"@) {
            Some(b) => b,
            None => Seq::empty(),
        },
    );
}

/// Appends the user agent of a request as the access log writes it.
pub fn push_user_agent(out: &mut String, headers: &http::HeaderMap<http::HeaderValue>)
    ensures
        final(out)@ == old(out)@ + user_agent_text(*headers),
{
    let ghost start = out@;
    proof {
        reveal_strlit("user-agent");
        assert(is_lowercase_header_name("user-agent"@));
    }
    match get_header_bytes(headers, "user-agent") {
        Some(bytes) => {
            if all_visible_ascii(&bytes) {
                for j in 0..bytes.len()
                    invariant
                        out@ == start + bytes@.take(j as int).map_values(|b: u8| b as char),
                {
                    push_char(out, bytes[j] as char);
                    assert(bytes@.take(j + 1).map_values(|b: u8| b as char) =~= bytes@.take(
                        j as int,
                    ).map_values(|b: u8| b as char).push(bytes[j as int] as char));
                }
                assert(bytes@.take(bytes.len() as int) == bytes@);
            } else {
                push_str(out, "-");
            }
        },
        None => push_str(out, "-"),
    }
}

/// Whether every byte is visible ASCII or a tab.
fn all_visible_ascii(bytes: &Vec<u8>) -> (res: bool)
    ensures
        res == forall|i: int| 0 <= i < bytes.len() ==> is_visible_ascii(#[trigger] bytes@[i]),
{
    for i in 0..bytes.len()
        invariant
            forall|k: int| 0 <= k < i ==> is_visible_ascii(#[trigger] bytes@[k]),
    {
        let b = bytes[i];
        if !((32 <= b && b < 127) || b == 9) {
            assert(!is_visible_ascii(bytes@[i as int]));
            return false;
        }
    }
    true
}

/// The start of every access-log line: status code, summary, client
/// address, HTTP version and user agent.
pub open spec fn default_line(msg: LogMessage) -> Seq<char> {
    decimal(msg.response_code as nat) + ", "@ + msg.summary@ + ", client: "@ + ip_text(msg.client_ip)
        + ", version: "@ + version_text(msg.version) + ", useragent: "@ + user_agent_text(
        msg.headers,
    )
}

/// Appends the line of the default access log for `msg`.
pub fn push_default_line(out: &mut String, msg: &LogMessage)
    ensures
        final(out)@ == old(out)@ + default_line(*msg),
{
    let ghost start = out@;
    push_decimal(out, msg.response_code as u64);
    push_str(out, ", ");
    push_str(out, msg.summary.as_str());
    push_str(out, ", client: ");
    push_ip(out, &msg.client_ip);
    push_str(out, ", version: ");
    push_version(out, msg.version);
    push_str(out, ", useragent: ");
    push_user_agent(out, &msg.headers);
    assert(out@ =~= start + default_line(*msg));
}

/// The default access log.
pub struct DefaultAccessLog;

impl AccessLog for DefaultAccessLog {
    fn info(msg: LogMessage) -> (line: String)
        ensures
            line@ == default_line(msg),
    {
        let mut line = String::new();
        push_default_line(&mut line, &msg);
        line
    }
}

} // verus!
