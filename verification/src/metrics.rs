//! The metrics this device exposes: HTTP requests counted by method.

use vstd::prelude::*;
use crate::http::{fits, HttpResponseBuffer, RESPONSE_BUFFER_SIZE};
use crate::prom::{Counter, Metric};

verus! {

/// The device's metrics.
#[derive(Debug)]
pub struct Metrics {
    /// GET requests served.
    pub http_get_requests: Counter,
    /// POST requests served.
    pub http_post_requests: Counter,
}

impl Metrics {
    /// The body of a metrics response: the GET counter's line, then the POST counter's.
    pub open spec fn spec_text(&self) -> Seq<u8> {
        self.http_get_requests.spec_text() + self.http_post_requests.spec_text()
    }

    /// Both counters at zero, named `http_request_count` and labelled with their method.
    #[must_use]
    pub fn new() -> (m: Self)
        ensures
            m.http_get_requests.spec_name()@ == "http_request_count"@,
            m.http_get_requests.spec_labels()@ == "method=\"GET\""@,
            m.http_get_requests.spec_value() == 0,
            m.http_post_requests.spec_name()@ == "http_request_count"@,
            m.http_post_requests.spec_labels()@ == "method=\"POST\""@,
            m.http_post_requests.spec_value() == 0,
    {
        Self {
            http_get_requests: Counter::new("http_request_count", "method=\"GET\""),
            http_post_requests: Counter::new("http_request_count", "method=\"POST\""),
        }
    }

    /// Writes the metrics response body; it must fit in `writer`.
    pub fn write_http_body(&self, writer: &mut HttpResponseBuffer)
        requires
            fits(old(writer)@.len() as int, self.spec_text()),
        ensures
            final(writer)@ == old(writer)@ + self.spec_text(),
    {
        let ghost b0 = writer@;
        self.http_get_requests.write(writer);
        self.http_post_requests.write(writer);
        proof {
            assert(writer@ =~= b0 + self.spec_text());
        }
    }

    /// Whether the metrics response body fits in an empty response buffer.
    pub fn body_fits(&self) -> (r: bool)
        ensures
            r == (self.spec_text().len() <= RESPONSE_BUFFER_SIZE),
    {
        match (self.http_get_requests.text_len(), self.http_post_requests.text_len()) {
            (Some(get), Some(post)) => get + post <= RESPONSE_BUFFER_SIZE,
            _ => false,
        }
    }
}

impl Default for Metrics {
    fn default() -> (m: Self)
        ensures
            m.http_get_requests.spec_name()@ == "http_request_count"@,
            m.http_get_requests.spec_labels()@ == "method=\"GET\""@,
            m.http_get_requests.spec_value() == 0,
            m.http_post_requests.spec_name()@ == "http_request_count"@,
            m.http_post_requests.spec_labels()@ == "method=\"POST\""@,
            m.http_post_requests.spec_value() == 0,
    {
        Self::new()
    }
}

} // verus!
