use esp_fan::http::{
    route, HttpMethod, PAUSE_MS, HttpResponse, HttpResponseBuffer, HttpServer, ResponseBody, Route,
    StatusCode, RESPONSE_BUFFER_SIZE,
};
use esp_fan::metrics::Metrics;

#[test]
fn buffer_write_and_clear() {
    let mut b = HttpResponseBuffer::default();
    assert_eq!(b.len(), 0);
    b.write_str("hello ");
    b.write_str("world");
    assert_eq!(b.as_bytes(), b"hello world");
    assert_eq!(b.as_str(), "hello world");
    b.clear();
    assert_eq!(b.len(), 0);
    assert_eq!(b.as_str(), "");
}

#[test]
fn buffer_fills_to_capacity() {
    let mut b = HttpResponseBuffer::new();
    let chunk = "x".repeat(40_000);
    b.write_str(&chunk);
    b.write_str(&"y".repeat(RESPONSE_BUFFER_SIZE - 40_000));
    assert_eq!(b.len(), RESPONSE_BUFFER_SIZE);
    b.write_str("");
    assert_eq!(b.len(), RESPONSE_BUFFER_SIZE);
    assert!(b.as_bytes()[..40_000].iter().all(|c| *c == b'x'));
    assert!(b.as_bytes()[40_000..].iter().all(|c| *c == b'y'));
}

#[test]
fn buffer_reads_back_multibyte_text() {
    let mut b = HttpResponseBuffer::new();
    b.write_str(&"a".repeat(RESPONSE_BUFFER_SIZE - 2));
    // "é" takes two bytes, exactly the room left.
    b.write_str("é");
    assert_eq!(b.len(), RESPONSE_BUFFER_SIZE);
    assert!(b.as_str().ends_with("aé"));
    b.clear();
    b.write_str("grüße, ");
    b.write_str("🌀");
    assert_eq!(b.as_str(), "grüße, 🌀");
    assert_eq!(b.len(), "grüße, 🌀".len());
}

#[test]
fn routes() {
    assert_eq!(route("/healthz"), Route::Healthz);
    assert_eq!(route("/pausez"), Route::Pausez);
    assert_eq!(route("/metrics"), Route::Metrics);
    assert_eq!(route("/metrics/"), Route::NotFound);
    assert_eq!(route("/healthz?x=1"), Route::NotFound);
    assert_eq!(route(""), Route::NotFound);
    assert_eq!(route("/"), Route::NotFound);
}

#[test]
fn pause_only_for_pausez() {
    assert_eq!(Route::Pausez.pause_ms(), PAUSE_MS);
    assert_eq!(PAUSE_MS, 1000);
    assert_eq!(Route::Healthz.pause_ms(), 0);
    assert_eq!(Route::Metrics.pause_ms(), 0);
    assert_eq!(Route::NotFound.pause_ms(), 0);
}

#[test]
fn status_numbers() {
    assert_eq!(StatusCode::Success.as_u16(), 200);
    assert_eq!(StatusCode::NotFound.as_u16(), 404);
}

#[test]
fn handle_healthz_pausez_notfound() {
    let mut server = HttpServer::default();
    let mut metrics = Metrics::new();
    assert_eq!(
        server.handle_request(&mut metrics, HttpMethod::Get, "/healthz"),
        HttpResponse {
            status_code: StatusCode::Success,
            body: ResponseBody::Text("{\"status\":\"ok\"}")
        }
    );
    assert_eq!(
        server.handle_request(&mut metrics, HttpMethod::Post, "/pausez"),
        HttpResponse { status_code: StatusCode::Success, body: ResponseBody::Text("OK") }
    );
    assert_eq!(
        server.handle_request(&mut metrics, HttpMethod::Put, "/nothing"),
        HttpResponse { status_code: StatusCode::NotFound, body: ResponseBody::Text("Not Found") }
    );
    assert_eq!(metrics.http_get_requests.value(), 1);
    assert_eq!(metrics.http_post_requests.value(), 1);
    assert_eq!(server.response_buffer().len(), 0);
}

#[test]
fn handle_metrics_reports_counts_before_request() {
    let mut server = HttpServer::new();
    let mut metrics = Metrics::new();
    server.handle_request(&mut metrics, HttpMethod::Get, "/healthz");
    server.handle_request(&mut metrics, HttpMethod::Get, "/healthz");
    server.handle_request(&mut metrics, HttpMethod::Post, "/x");
    let r = server.handle_request(&mut metrics, HttpMethod::Get, "/metrics");
    assert_eq!(r, HttpResponse { status_code: StatusCode::Success, body: ResponseBody::Buffer });
    assert_eq!(
        server.response_buffer().as_str(),
        "http_request_count {method=\"GET\"} 2\nhttp_request_count {method=\"POST\"} 1\n"
    );
    assert_eq!(metrics.http_get_requests.value(), 3);
    // A second metrics request replaces the body.
    server.handle_request(&mut metrics, HttpMethod::Head, "/metrics");
    assert_eq!(
        server.response_buffer().as_str(),
        "http_request_count {method=\"GET\"} 3\nhttp_request_count {method=\"POST\"} 1\n"
    );
    assert_eq!(metrics.http_get_requests.value(), 3);
    assert_eq!(metrics.http_post_requests.value(), 1);
}
