use esp_fan::http::HttpResponseBuffer;
use esp_fan::metrics::Metrics;
use esp_fan::prom::{decimal_bytes, Counter, IntGauge, Metric};

#[test]
fn decimal_digits() {
    assert_eq!(decimal_bytes(0), b"0".to_vec());
    assert_eq!(decimal_bytes(7), b"7".to_vec());
    assert_eq!(decimal_bytes(10), b"10".to_vec());
    assert_eq!(decimal_bytes(1234567890), b"1234567890".to_vec());
    assert_eq!(decimal_bytes(usize::MAX), usize::MAX.to_string().into_bytes());
}

#[test]
fn counter_counts_and_wraps() {
    let mut c = Counter::new("requests", "a=\"b\"");
    assert_eq!(c.value(), 0);
    assert_eq!(c.inc(1), 0);
    assert_eq!(c.inc(5), 1);
    assert_eq!(c.value(), 6);
    assert_eq!(c.inc(usize::MAX), 6);
    assert_eq!(c.value(), 5);
}

#[test]
fn counter_line() {
    let mut c = Counter::new("requests", "a=\"b\"");
    c.inc(42);
    let mut b = HttpResponseBuffer::new();
    c.write(&mut b);
    assert_eq!(b.as_str(), "requests {a=\"b\"} 42\n");
}

#[test]
fn int_gauge_set_and_line() {
    let mut g = IntGauge::new("temperature", "room=\"hall\"");
    assert_eq!(g.value(), 0);
    g.set(19);
    assert_eq!(g.value(), 19);
    g.set(3);
    assert_eq!(g.value(), 3);
    let mut b = HttpResponseBuffer::new();
    g.write(&mut b);
    g.write(&mut b);
    assert_eq!(
        b.as_str(),
        "temperature {room=\"hall\"} 3\ntemperature {room=\"hall\"} 3\n"
    );
}

#[test]
fn metrics_body() {
    let mut m = Metrics::default();
    let mut b = HttpResponseBuffer::new();
    m.write_http_body(&mut b);
    assert_eq!(
        b.as_str(),
        "http_request_count {method=\"GET\"} 0\nhttp_request_count {method=\"POST\"} 0\n"
    );
    m.http_post_requests.inc(2);
    b.clear();
    m.write_http_body(&mut b);
    assert_eq!(
        b.as_str(),
        "http_request_count {method=\"GET\"} 0\nhttp_request_count {method=\"POST\"} 2\n"
    );
}

#[test]
fn metrics_body_fits() {
    let mut m = Metrics::new();
    assert!(m.body_fits());
    m.http_get_requests.inc(usize::MAX);
    assert!(m.body_fits());
    let long: &'static str = Box::leak("n".repeat(40_000).into_boxed_str());
    m.http_post_requests = Counter::new(long, "");
    assert!(m.body_fits());
    m.http_get_requests = Counter::new(long, "");
    assert!(!m.body_fits());
}

#[test]
fn counter_text_len() {
    let mut c = Counter::new("requests", "a=\"b\"");
    assert_eq!(c.text_len(), Some("requests {a=\"b\"} 0\n".len()));
    c.inc(12345);
    assert_eq!(c.text_len(), Some("requests {a=\"b\"} 12345\n".len()));
    let huge: &'static str = Box::leak("n".repeat(70_000).into_boxed_str());
    assert_eq!(Counter::new(huge, "").text_len(), None);
}
