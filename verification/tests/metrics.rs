use aralez::interface::HttpVersion;
use aralez::metrics::{cache_gauges, memory_usage_from_status, metric_labels, vm_rss_kib_of, MetricTypes};
use std::sync::Arc;
use std::time::Duration;

fn request(code: Option<u16>, version: HttpVersion) -> MetricTypes {
    MetricTypes {
        method: "GET".to_string(),
        upstream: Arc::from("10.0.0.5:8080"),
        code,
        latency: Duration::from_millis(12),
        version,
    }
}

#[test]
fn labels_of_a_request() {
    let labels = metric_labels(&request(Some(404), HttpVersion::Http2));
    assert_eq!(labels.version, "HTTP/2.0");
    assert_eq!(labels.status, "404");
    assert_eq!(labels.method, "GET");
    assert_eq!(labels.upstream, "10.0.0.5:8080");
}

#[test]
fn missing_status_is_counted_as_gone() {
    assert_eq!(metric_labels(&request(None, HttpVersion::Http11)).status, "410");
}

#[test]
fn version_labels() {
    assert_eq!(metric_labels(&request(Some(200), HttpVersion::Http10)).version, "HTTP/1.0");
    assert_eq!(metric_labels(&request(Some(200), HttpVersion::Http11)).version, "HTTP/1.1");
    assert_eq!(metric_labels(&request(Some(200), HttpVersion::Http3)).version, "HTTP/3.0");
    assert_eq!(metric_labels(&request(Some(200), HttpVersion::Http09)).version, "Unknown");
}

#[test]
fn status_labels_match_http_status_codes() {
    for code in [100u16, 101, 200, 302, 404, 418, 599, 999] {
        let expected = http::StatusCode::from_u16(code).unwrap();
        assert_eq!(metric_labels(&request(Some(code), HttpVersion::Http11)).status, expected.as_str());
    }
}

#[test]
fn cache_gauges_convert_with_as() {
    let g = cache_gauges(1024, 3, 0, usize::MAX);
    assert_eq!(g.size_bytes, 1024);
    assert_eq!(g.items, 3);
    assert_eq!(g.evicted_bytes, 0);
    assert_eq!(g.evicted_items, -1);
}

const STATUS: &str = "Name:\taralez\nUmask:\t0022\nState:\tS (sleeping)\nVmPeak:\t  123456 kB\nVmSize:\t  120000 kB\nVmRSS:\t   45678 kB\nRssAnon:\t 40000 kB\nThreads:\t8\n";

#[test]
fn resident_memory_is_the_vmrss_figure_in_bytes() {
    assert_eq!(vm_rss_kib_of(STATUS), 45678);
    assert_eq!(memory_usage_from_status(STATUS), 45678 * 1024);
}

#[test]
fn memory_is_zero_without_a_vmrss_line() {
    assert_eq!(memory_usage_from_status(""), 0);
    assert_eq!(memory_usage_from_status("Name:\tx\nVmSize:\t10 kB\n"), 0);
    assert_eq!(memory_usage_from_status("  VmRSS: 5 kB\n"), 0);
}

#[test]
fn memory_is_zero_when_the_figure_does_not_read() {
    assert_eq!(memory_usage_from_status("VmRSS:12 kB\n"), 0);
    assert_eq!(memory_usage_from_status("VmRSS:\n"), 0);
    assert_eq!(memory_usage_from_status("VmRSS: -3 kB\n"), 0);
    assert_eq!(memory_usage_from_status("VmRSS: 99999999999999999999999 kB\n"), 0);
}

#[test]
fn first_vmrss_line_counts() {
    assert_eq!(memory_usage_from_status("VmRSS: 1\nVmRSS: 2\n"), 1024);
    assert_eq!(memory_usage_from_status("VmRSS:\u{3000}+7\r\n"), 7 * 1024);
    assert_eq!(memory_usage_from_status("x\nVmRSS: 3"), 3 * 1024);
    assert_eq!(memory_usage_from_status("VmRSSx: 3 kB"), 0);
}

#[test]
fn vmrss_reading_matches_the_std_pipeline() {
    let texts = [STATUS, "", "VmRSS:12 kB", "VmRSS: 1\nVmRSS: 2", "a\r\nVmRSS:\t9 kB\r\n", "VmRSS: +4 kB", "VmRSS: 4kB"];
    for text in texts {
        let expected = text
            .lines()
            .find(|l| l.starts_with("VmRSS:"))
            .and_then(|l| l.split_whitespace().nth(1))
            .and_then(|v| v.parse::<usize>().ok())
            .unwrap_or(0);
        assert_eq!(vm_rss_kib_of(text), expected, "{text:?}");
    }
}
