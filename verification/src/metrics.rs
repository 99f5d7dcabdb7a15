//! The metric values derived from a finished request and from the
//! process: the labels of the per-request counters, the cache gauges, and
//! the resident memory read from `/proc/self/status`.

use crate::interface::HttpVersion;
use crate::text::{chars_of, decimal, digits_value, parse_usize_in, parsed_usize, push_decimal, push_str};
use std::sync::Arc;
use std::time::Duration;
use vstd::prelude::*;

verus! {

/// What is measured of one finished request.
pub struct MetricTypes {
    /// The request method, as `Method::as_str` writes it.
    pub method: String,
    pub upstream: Arc<str>,
    /// The response status, when there was a response.
    pub code: Option<u16>,
    pub latency: Duration,
    pub version: HttpVersion,
}

/// The labels under which one finished request is counted.
pub struct MetricLabels {
    pub version: String,
    pub status: String,
    pub method: String,
    pub upstream: String,
}

/// The version label: the version's name, `Unknown` for HTTP/0.9.
pub open spec fn version_label(v: HttpVersion) -> Seq<char> {
    match v {
        HttpVersion::Http11 => "HTTP/1.1"@,
        HttpVersion::Http2 => "HTTP/2.0"@,
        HttpVersion::Http3 => "HTTP/3.0"@,
        HttpVersion::Http10 => "HTTP/1.0"@,
        HttpVersion::Http09 => "Unknown"@,
    }
}

/// The status label: the status code in decimal (as `StatusCode::as_str`
/// writes a code of three digits), `410` (Gone) when there was no
/// response.
pub open spec fn status_label(code: Option<u16>) -> Seq<char> {
    match code {
        Some(c) => decimal(c as nat),
        None => decimal(410),
    }
}

/// A status code as `http::StatusCode` holds one: three decimal digits.
pub open spec fn is_status_code(code: Option<u16>) -> bool {
    code matches Some(c) ==> 100 <= c && c <= 999
}

/// The labels of the per-request counters.
pub fn metric_labels(m: &MetricTypes) -> (res: MetricLabels)
    requires
        is_status_code(m.code),
    ensures
        res.version@ == version_label(m.version),
        res.status@ == status_label(m.code),
        res.method@ == m.method@,
        res.upstream@ == m.upstream@,
{
    let mut version = String::new();
    match m.version {
        HttpVersion::Http11 => push_str(&mut version, "HTTP/1.1"),
        HttpVersion::Http2 => push_str(&mut version, "HTTP/2.0"),
        HttpVersion::Http3 => push_str(&mut version, "HTTP/3.0"),
        HttpVersion::Http10 => push_str(&mut version, "HTTP/1.0"),
        HttpVersion::Http09 => push_str(&mut version, "Unknown"),
    }
    let mut status = String::new();
    let code: u16 = match m.code {
        Some(c) => c,
        None => 410,
    };
    push_decimal(&mut status, code as u64);
    let mut upstream = String::new();
    push_str(&mut upstream, &*m.upstream);
    MetricLabels { version: version, status: status, method: m.method.clone(), upstream: upstream }
}

/// The cache gauges, each a count converted with `as i64`.
pub struct CacheGauges {
    pub size_bytes: i64,
    pub items: i64,
    pub evicted_bytes: i64,
    pub evicted_items: i64,
}

/// The cache gauges for the eviction manager's totals.
pub fn cache_gauges(total_size: usize, total_items: usize, evicted_size: usize, evicted_items: usize) -> (res:
    CacheGauges)
    ensures
        res.size_bytes == total_size as i64,
        res.items == total_items as i64,
        res.evicted_bytes == evicted_size as i64,
        res.evicted_items == evicted_items as i64,
{
    CacheGauges {
        size_bytes: total_size as i64,
        items: total_items as i64,
        evicted_bytes: evicted_size as i64,
        evicted_items: evicted_items as i64,
    }
}

// ----- resident memory -----

/// A character that `char::is_whitespace` accepts (Unicode `White_Space`).
pub open spec fn is_whitespace(c: char) -> bool {
    ||| '\t' <= c && c <= '\r'
    ||| c == ' '
    ||| c == '\u{85}'
    ||| c == '\u{A0}'
    ||| c == '\u{1680}'
    ||| '\u{2000}' <= c && c <= '\u{200A}'
    ||| c == '\u{2028}'
    ||| c == '\u{2029}'
    ||| c == '\u{202F}'
    ||| c == '\u{205F}'
    ||| c == '\u{3000}'
}

/// The end of the line that contains position `i`: the first `\n` at or
/// after `i`, or the end of the text.
pub open spec fn line_end(t: Seq<char>, i: int) -> int
    decreases t.len() - i,
{
    if i < 0 || i >= t.len() {
        t.len() as int
    } else if t[i] == '\n' {
        i
    } else {
        line_end(t, i + 1)
    }
}

/// `t[i..]` begins with `prefix`.
pub open spec fn has_prefix_at(t: Seq<char>, i: int, prefix: Seq<char>) -> bool {
    0 <= i && i + prefix.len() <= t.len() && t.subrange(i, i + prefix.len()) == prefix
}

/// The start of the first line, among the line starting at `i` and those
/// after it, that begins with `VmRSS:`.
pub open spec fn vm_rss_line(t: Seq<char>, i: int) -> Option<int>
    decreases t.len() - i,
{
    if i < 0 || i > t.len() {
        None
    } else if has_prefix_at(t, i, "VmRSS:"@) {
        Some(i)
    } else if line_end(t, i) >= t.len() {
        None
    } else {
        proof {
            lemma_line_end_bounds(t, i);
        }
        vm_rss_line(t, line_end(t, i) + 1)
    }
}

/// A line ends at or after the position asked about, within the text.
pub proof fn lemma_line_end_bounds(t: Seq<char>, i: int)
    requires
        0 <= i <= t.len(),
    ensures
        i <= line_end(t, i) <= t.len(),
    decreases t.len() - i,
{
    if i < t.len() && t[i] != '\n' {
        lemma_line_end_bounds(t, i + 1);
    }
}

/// The first position at or after `i`, before `e`, that is not whitespace.
pub open spec fn skip_space(t: Seq<char>, i: int, e: int) -> int
    decreases e - i,
{
    if 0 <= i < e && i < t.len() && is_whitespace(t[i]) {
        skip_space(t, i + 1, e)
    } else {
        i
    }
}

/// The first position at or after `i`, before `e`, that is whitespace.
pub open spec fn skip_word(t: Seq<char>, i: int, e: int) -> int
    decreases e - i,
{
    if 0 <= i < e && i < t.len() && !is_whitespace(t[i]) {
        skip_word(t, i + 1, e)
    } else {
        i
    }
}

/// The second whitespace-separated word of the line `t[s..e]`.
pub open spec fn second_word(t: Seq<char>, s: int, e: int) -> Option<Seq<char>> {
    let a0 = skip_space(t, s, e);
    let b0 = skip_word(t, a0, e);
    let a1 = skip_space(t, b0, e);
    let b1 = skip_word(t, a1, e);
    if a1 < e {
        Some(t.subrange(a1, b1))
    } else {
        None
    }
}

/// The resident set size in KiB that a `/proc/self/status` text reports:
/// the second word of its first `VmRSS:` line read as a `usize`, or 0 when
/// there is no such line or word or it does not read as one.
pub open spec fn vm_rss_kib(status: Seq<char>) -> nat {
    match vm_rss_line(status, 0) {
        Some(s) => match second_word(status, s, line_end(status, s)) {
            Some(word) => match parsed_usize(word) {
                Some(v) => v as nat,
                None => 0,
            },
            None => 0,
        },
        None => 0,
    }
}

proof fn lemma_line_end_no_newline(t: Seq<char>, i: int)
    requires
        0 <= i <= t.len(),
        forall|k: int| i <= k < t.len() ==> t[k] != '\n',
    ensures
        line_end(t, i) == t.len(),
    decreases t.len() - i,
{
    if i < t.len() {
        lemma_line_end_no_newline(t, i + 1);
    }
}

proof fn lemma_skip_word_run(t: Seq<char>, i: int, j: int, e: int)
    requires
        0 <= i <= j <= e <= t.len(),
        forall|k: int| i <= k < j ==> !is_whitespace(#[trigger] t[k]),
        j == e || is_whitespace(t[j]),
    ensures
        skip_word(t, i, e) == j,
    decreases j - i,
{
    if i < j {
        lemma_skip_word_run(t, i + 1, j, e);
    }
}

proof fn lemma_skip_space_run(t: Seq<char>, i: int, j: int, e: int)
    requires
        0 <= i <= j <= e <= t.len(),
        forall|k: int| i <= k < j ==> is_whitespace(#[trigger] t[k]),
        j == e || !is_whitespace(t[j]),
    ensures
        skip_space(t, i, e) == j,
    decreases j - i,
{
    if i < j {
        lemma_skip_space_run(t, i + 1, j, e);
    }
}

/// A status text whose `VmRSS:` line carries a figure of any size that fits
/// in `usize` reports that figure: `VmRSS:`, one whitespace character other
/// than a newline, the digits, then ` kB`.
pub proof fn lemma_vm_rss_figure_is_read(w: char, ds: Seq<char>)
    requires
        is_whitespace(w),
        w != '\n',
        ds.len() > 0,
        forall|i: int| 0 <= i < ds.len() ==> '0' <= #[trigger] ds[i] && ds[i] <= '9',
        digits_value(ds) <= usize::MAX,
    ensures
        vm_rss_kib("VmRSS:"@ + seq![w] + ds + seq![' ', 'k', 'B']) == digits_value(ds),
{
    reveal_strlit("VmRSS:");
    let p = "VmRSS:"@;
    let t = p + seq![w] + ds + seq![' ', 'k', 'B'];
    let n = ds.len() as int;
    assert(p.len() == 6);
    assert(t.len() == 10 + n);
    assert forall|k: int| 0 <= k < t.len() implies t[k] != '\n' by {
        if 7 <= k < 7 + n {
            assert(t[k] == ds[k - 7]);
        }
    }
    assert(t.subrange(0, 6) =~= p);
    assert(has_prefix_at(t, 0, p));
    assert(vm_rss_line(t, 0) == Some(0int));
    lemma_line_end_no_newline(t, 0);
    let e = t.len() as int;
    assert forall|k: int| 0 <= k < 6 implies !is_whitespace(#[trigger] t[k]) by {
        assert(t[k] == p[k]);
    }
    lemma_skip_space_run(t, 0, 0, e);
    lemma_skip_word_run(t, 0, 6, e);
    lemma_skip_space_run(t, 6, 7, e);
    assert forall|k: int| 7 <= k < 7 + n implies !is_whitespace(#[trigger] t[k]) by {
        assert(t[k] == ds[k - 7]);
    }
    assert(t[7 + n] == ' ');
    lemma_skip_word_run(t, 7, 7 + n, e);
    assert(t.subrange(7, 7 + n) =~= ds);
    assert(second_word(t, 0, e) == Some(ds));
    crate::text::lemma_digit_run_is_unsigned_literal(ds);
}

fn find_line_end(v: &Vec<char>, i: usize) -> (res: usize)
    requires
        i <= v.len(),
    ensures
        res == line_end(v@, i as int),
        i <= res <= v.len(),
{
    let mut j = i;
    while j < v.len() && v[j] != '\n'
        invariant
            i <= j <= v.len(),
            line_end(v@, i as int) == line_end(v@, j as int),
        decreases v.len() - j,
    {
        j = j + 1;
    }
    j
}

fn find_skip_space(v: &Vec<char>, i: usize, e: usize) -> (res: usize)
    requires
        i <= e <= v.len(),
    ensures
        res == skip_space(v@, i as int, e as int),
        i <= res <= e,
{
    let mut j = i;
    while j < e && is_space_char(v[j])
        invariant
            i <= j <= e <= v.len(),
            skip_space(v@, i as int, e as int) == skip_space(v@, j as int, e as int),
        decreases e - j,
    {
        j = j + 1;
    }
    j
}

fn find_skip_word(v: &Vec<char>, i: usize, e: usize) -> (res: usize)
    requires
        i <= e <= v.len(),
    ensures
        res == skip_word(v@, i as int, e as int),
        i <= res <= e,
{
    let mut j = i;
    while j < e && !is_space_char(v[j])
        invariant
            i <= j <= e <= v.len(),
            skip_word(v@, i as int, e as int) == skip_word(v@, j as int, e as int),
        decreases e - j,
    {
        j = j + 1;
    }
    j
}

fn is_space_char(c: char) -> (res: bool)
    ensures
        res == is_whitespace(c),
{
    ('\t' <= c && c <= '\r') || c == ' ' || c == '\u{85}' || c == '\u{A0}' || c == '\u{1680}' || (
    '\u{2000}' <= c && c <= '\u{200A}') || c == '\u{2028}' || c == '\u{2029}' || c == '\u{202F}'
        || c == '\u{205F}' || c == '\u{3000}'
}

fn has_prefix(v: &Vec<char>, i: usize, prefix: &Vec<char>) -> (res: bool)
    requires
        i <= v.len(),
    ensures
        res == has_prefix_at(v@, i as int, prefix@),
{
    if prefix.len() > v.len() - i {
        return false;
    }
    for k in 0..prefix.len()
        invariant
            i + prefix.len() <= v.len(),
            forall|m: int| 0 <= m < k ==> v@[i + m] == prefix@[m],
    {
        if v[i + k] != prefix[k] {
            assert(v@.subrange(i as int, i + prefix.len())[k as int] != prefix@[k as int]);
            return false;
        }
    }
    assert(v@.subrange(i as int, i + prefix.len()) =~= prefix@);
    true
}

/// The resident set size in KiB reported by a `/proc/self/status` text.
pub fn vm_rss_kib_of(status: &str) -> (res: usize)
    ensures
        res == vm_rss_kib(status@),
{
    let v = chars_of(status);
    let prefix = chars_of("VmRSS:");
    let mut i: usize = 0;
    let mut start: Option<usize> = None;
    loop
        invariant_except_break
            i <= v.len(),
            v@ == status@,
            prefix@ == "VmRSS:"@,
            vm_rss_line(v@, 0) == vm_rss_line(v@, i as int),
            start is None,
        ensures
            v@ == status@,
            match vm_rss_line(v@, 0) {
                Some(s) => start is Some && start.unwrap() == s,
                None => start is None,
            },
            start matches Some(s) ==> s <= v.len(),
        decreases v.len() - i,
    {
        if has_prefix(&v, i, &prefix) {
            start = Some(i);
            break;
        }
        let e = find_line_end(&v, i);
        if e >= v.len() {
            break;
        }
        i = e + 1;
    }
    match start {
        Some(s) => {
            let e = find_line_end(&v, s);
            let a0 = find_skip_space(&v, s, e);
            let b0 = find_skip_word(&v, a0, e);
            let a1 = find_skip_space(&v, b0, e);
            let b1 = find_skip_word(&v, a1, e);
            if a1 < e {
                match parse_usize_in(&v, a1, b1) {
                    Some(n) => n,
                    None => 0,
                }
            } else {
                0
            }
        },
        None => 0,
    }
}

/// The resident memory in bytes reported by a `/proc/self/status` text:
/// the `VmRSS:` figure (in KiB) times 1024, 0 when there is none.
pub fn memory_usage_from_status(status: &str) -> (res: usize)
    requires
        vm_rss_kib(status@) * 1024 <= usize::MAX,
    ensures
        res == vm_rss_kib(status@) * 1024,
{
    vm_rss_kib_of(status) * 1024
}

} // verus!
