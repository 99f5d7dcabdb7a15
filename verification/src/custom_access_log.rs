//! The extended access log: the default line followed by the route
//! pattern that matched the request.

use crate::access_log::{default_line, push_default_line};
use crate::interface::{AccessLog, LogMessage};
use crate::text::push_str;
use std::sync::Arc;
use vstd::prelude::*;

verus! {

/// The matched route as the extended access log writes it, `-` when none
/// matched.
pub open spec fn matched_path_text(matched_path: Option<Arc<String>>) -> Seq<char> {
    match matched_path {
        Some(p) => p@,
        None => "-"@,
    }
}

/// The line of the extended access log.
pub open spec fn custom_line(msg: LogMessage) -> Seq<char> {
    default_line(msg) + ", matched_path: "@ + matched_path_text(msg.matched_path)
}

/// The extended access log writes the line of the default access log,
/// then the matched route.
pub proof fn lemma_custom_line_extends_default(msg: LogMessage)
    ensures
        custom_line(msg).len() > default_line(msg).len(),
        custom_line(msg).take(default_line(msg).len() as int) == default_line(msg),
{
    reveal_strlit(", matched_path: ");
    assert(custom_line(msg).take(default_line(msg).len() as int) =~= default_line(msg));
}

/// The extended line is the default line, `, matched_path: `, and then the
/// matched route's text unchanged, whatever its length, or `-` when no
/// route matched.
pub proof fn lemma_custom_line_ends_with_route(msg: LogMessage)
    ensures
        msg.matched_path matches Some(p) ==> custom_line(msg) == default_line(msg)
            + ", matched_path: "@ + p@,
        msg.matched_path is None ==> custom_line(msg) == default_line(msg) + ", matched_path: "@
            + "-"@,
{
}

/// The extended access log.
pub struct CustomAccessLog;

impl AccessLog for CustomAccessLog {
    fn info(msg: LogMessage) -> (line: String)
        ensures
            line@ == custom_line(msg),
    {
        let mut line = String::new();
        push_default_line(&mut line, &msg);
        push_str(&mut line, ", matched_path: ");
        match &msg.matched_path {
            Some(p) => push_str(&mut line, p.as_str()),
            None => push_str(&mut line, "-"),
        }
        line
    }
}

} // verus!
