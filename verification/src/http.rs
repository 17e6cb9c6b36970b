//! The HTTP side: a fixed-capacity response buffer, request routing, and the
//! handler that answers health, pause and metrics requests.

use vstd::prelude::*;
use vstd::utf8::{
    decode_utf8, encode_scalar, encode_utf8, encode_utf8_decode_utf8, encode_utf8_valid_utf8,
    is_leading_byte_width_1, partial_valid_utf8, partial_valid_utf8_extend_ascii_block,
    valid_utf8, valid_utf8_concat,
};
use vstd::string::StringSliceAdditionalSpecFns;
use crate::metrics::Metrics;
use crate::prom::wrapping_add_usize;

verus! {

/// Capacity of the response buffer, in bytes.
pub const RESPONSE_BUFFER_SIZE: usize = 65535;

/// Whether `bytes` still fit after the `len` bytes a buffer already holds.
pub open spec fn fits(len: int, bytes: Seq<u8>) -> bool {
    len + bytes.len() <= RESPONSE_BUFFER_SIZE
}

/// The UTF-8 encoding of a concatenation is the concatenation of the encodings.
pub proof fn lemma_encode_utf8_concat(a: Seq<char>, b: Seq<char>)
    ensures
        encode_utf8(a + b) == encode_utf8(a) + encode_utf8(b),
    decreases a.len(),
{
    if a.len() == 0 {
        assert(a + b =~= b);
        assert(encode_utf8(a) =~= Seq::<u8>::empty());
        assert(encode_utf8(a) + encode_utf8(b) =~= encode_utf8(b));
    } else {
        lemma_encode_utf8_concat(a.drop_first(), b);
        assert((a + b).drop_first() =~= a.drop_first() + b);
        assert((a + b)[0] == a[0]);
        assert(encode_utf8(a + b) == encode_scalar(a[0] as u32) + encode_utf8(a.drop_first() + b));
        assert(encode_utf8(a) == encode_scalar(a[0] as u32) + encode_utf8(a.drop_first()));
        assert(encode_scalar(a[0] as u32) + (encode_utf8(a.drop_first()) + encode_utf8(b))
            =~= (encode_scalar(a[0] as u32) + encode_utf8(a.drop_first())) + encode_utf8(b));
    }
}

/// Text reads back as it was written: a buffer holding the encoding of `written`
/// holds, once `s` is appended, the encoding of `written + s`, and that decodes to
/// `written + s`. A cleared buffer holds the encoding of the empty text.
pub proof fn lemma_read_back(written: Seq<char>, s: Seq<char>)
    ensures
        encode_utf8(Seq::<char>::empty()) == Seq::<u8>::empty(),
        encode_utf8(written) + encode_utf8(s) == encode_utf8(written + s),
        decode_utf8(encode_utf8(written) + encode_utf8(s)) == written + s,
{
    assert(encode_utf8(Seq::<char>::empty()) =~= Seq::<u8>::empty());
    lemma_encode_utf8_concat(written, s);
    encode_utf8_decode_utf8(written + s);
}

/// Bytes below 0x80 are valid UTF-8 (each is one ASCII character).
pub proof fn lemma_ascii_valid_utf8(bytes: Seq<u8>)
    requires
        forall|i: int| 0 <= i < bytes.len() ==> bytes[i] < 0x80,
    ensures
        valid_utf8(bytes),
{
    assert(bytes.subrange(0, 0) =~= Seq::<u8>::empty());
    assert(partial_valid_utf8(bytes, 0));
    assert forall|i: int| 0 <= 0 <= i < bytes.len() <= bytes.len() implies #[trigger] is_leading_byte_width_1(
        bytes[i],
    ) by {}
    partial_valid_utf8_extend_ascii_block(bytes, 0, bytes.len() as int);
    assert(bytes.subrange(0, bytes.len() as int) =~= bytes);
}

/// The text form of `core::str::from_utf8`: the string that `bytes` encode, or
/// `None` where they are not valid UTF-8.
#[verifier::external_body]
fn str_from_utf8(bytes: &[u8]) -> (r: Option<&str>)
    ensures
        r is Some <==> valid_utf8(bytes@),
        r matches Some(s) ==> s.spec_bytes() == bytes@,
{
    match core::str::from_utf8(bytes) {
        Ok(s) => Some(s),
        Err(_) => None,
    }
}

/// A response body written into a fixed amount of memory. It only ever holds
/// valid UTF-8: text is appended whole, and only where it fits.
#[derive(Debug)]
pub struct HttpResponseBuffer {
    buf: Vec<u8>,
}

impl View for HttpResponseBuffer {
    type V = Seq<u8>;

    /// The bytes written since the last `clear`.
    closed spec fn view(&self) -> Seq<u8> {
        self.buf@
    }
}

impl HttpResponseBuffer {
    #[verifier::type_invariant]
    spec fn inv(self) -> bool {
        &&& self.buf@.len() <= RESPONSE_BUFFER_SIZE
        &&& valid_utf8(self.buf@)
    }

    /// An empty buffer.
    pub fn new() -> (b: Self)
        ensures
            b@ == Seq::<u8>::empty(),
    {
        let b = HttpResponseBuffer { buf: Vec::new() };
        assert(valid_utf8(b.buf@));
        b
    }

    /// Forgets everything written.
    pub fn clear(&mut self)
        ensures
            final(self)@ == Seq::<u8>::empty(),
    {
        self.buf = Vec::new();
    }

    /// Appends `bytes`, which must be valid UTF-8 and fit.
    pub(crate) fn write_text_bytes(&mut self, bytes: &[u8])
        requires
            valid_utf8(bytes@),
            fits(old(self)@.len() as int, bytes@),
        ensures
            final(self)@ == old(self)@ + bytes@,
    {
        proof {
            use_type_invariant(&*self);
        }
        let mut buf: Vec<u8> = Vec::new();
        core::mem::swap(&mut buf, &mut self.buf);
        let ghost start = buf@;
        let mut i: usize = 0;
        while i < bytes.len()
            invariant
                i <= bytes@.len(),
                start.len() + bytes@.len() <= RESPONSE_BUFFER_SIZE,
                buf@ == start + bytes@.take(i as int),
            decreases bytes@.len() - i,
        {
            buf.push(bytes[i]);
            i = i + 1;
            assert(buf@ =~= start + bytes@.take(i as int));
        }
        assert(bytes@.take(bytes@.len() as int) =~= bytes@);
        proof {
            valid_utf8_concat(start, bytes@);
        }
        self.buf = buf;
    }

    /// Appends the UTF-8 bytes of `s`, which must fit: `s.len()` may not exceed
    /// `RESPONSE_BUFFER_SIZE - self.len()`.
    pub fn write_str(&mut self, s: &str)
        requires
            fits(old(self)@.len() as int, s.spec_bytes()),
        ensures
            final(self)@ == old(self)@ + s.spec_bytes(),
    {
        proof {
            encode_utf8_valid_utf8(s@);
        }
        self.write_text_bytes(s.as_bytes());
    }

    /// Number of bytes held.
    pub fn len(&self) -> (n: usize)
        ensures
            n == self@.len(),
            n <= RESPONSE_BUFFER_SIZE,
    {
        proof {
            use_type_invariant(self);
        }
        self.buf.len()
    }

    /// The bytes held.
    pub fn as_bytes(&self) -> (b: &[u8])
        ensures
            b@ == self@,
    {
        self.buf.as_slice()
    }

    /// The text held: exactly the bytes written, which are always valid UTF-8.
    pub fn as_str(&self) -> (s: &str)
        ensures
            s.spec_bytes() == self@,
            s@ == decode_utf8(self@),
            valid_utf8(self@),
    {
        proof {
            use_type_invariant(self);
        }
        let s = str_from_utf8(self.buf.as_slice()).unwrap();
        proof {
            encode_utf8_decode_utf8(s@);
        }
        s
    }
}

impl Default for HttpResponseBuffer {
    fn default() -> (b: Self)
        ensures
            b@ == Seq::<u8>::empty(),
    {
        Self::new()
    }
}

/// Compares two byte strings.
fn bytes_eq(a: &[u8], b: &[u8]) -> (r: bool)
    ensures
        r == (a@ == b@),
{
    if a.len() != b.len() {
        return false;
    }
    let mut i: usize = 0;
    while i < a.len()
        invariant
            a@.len() == b@.len(),
            i <= a@.len(),
            forall|k: int| 0 <= k < i ==> a@[k] == b@[k],
        decreases a@.len() - i,
    {
        if a[i] != b[i] {
            return false;
        }
        i = i + 1;
    }
    assert(a@ =~= b@);
    true
}

/// Whether `s` is the string `lit`.
fn str_is(s: &str, lit: &str) -> (r: bool)
    ensures
        r == (s@ == lit@),
{
    let r = bytes_eq(s.as_bytes(), lit.as_bytes());
    proof {
        encode_utf8_decode_utf8(s@);
        encode_utf8_decode_utf8(lit@);
    }
    r
}

/// The resources this server knows.
#[derive(Debug, Clone, Copy, PartialEq, Eq, Structural)]
pub enum Route {
    /// `/healthz`: a JSON health report.
    Healthz,
    /// `/pausez`: answers after a pause.
    Pausez,
    /// `/metrics`: the Prometheus metrics.
    Metrics,
    /// Anything else.
    NotFound,
}

/// The route of a request path; paths match exactly.
pub open spec fn route_of(path: Seq<char>) -> Route {
    if path == "/healthz"@ {
        Route::Healthz
    } else if path == "/pausez"@ {
        Route::Pausez
    } else if path == "/metrics"@ {
        Route::Metrics
    } else {
        Route::NotFound
    }
}

/// How long a `/pausez` request waits before it is answered, in milliseconds.
pub const PAUSE_MS: u64 = 1000;

impl Route {
    /// How long to wait before answering a request for this route, in milliseconds.
    pub fn pause_ms(&self) -> (ms: u64)
        ensures
            ms == if *self == Route::Pausez { PAUSE_MS } else { 0 },
    {
        match self {
            Route::Pausez => PAUSE_MS,
            _ => 0,
        }
    }
}

/// The route for `path`.
pub fn route(path: &str) -> (r: Route)
    ensures
        r == route_of(path@),
        r == Route::Healthz <==> path@ == "/healthz"@,
        r == Route::Pausez <==> path@ == "/pausez"@,
        r == Route::Metrics <==> path@ == "/metrics"@,
        r == Route::NotFound <==> (path@ != "/healthz"@ && path@ != "/pausez"@ && path@ != "/metrics"@),
{
    proof {
        reveal_strlit("/healthz");
        reveal_strlit("/pausez");
        reveal_strlit("/metrics");
        assert("/healthz"@.len() != "/pausez"@.len());
        assert("/metrics"@.len() != "/pausez"@.len());
        assert("/healthz"@[1] != "/metrics"@[1]);
    }
    if str_is(path, "/healthz") {
        Route::Healthz
    } else if str_is(path, "/pausez") {
        Route::Pausez
    } else if str_is(path, "/metrics") {
        Route::Metrics
    } else {
        Route::NotFound
    }
}

/// HTTP request methods.
#[derive(Debug, Clone, Copy, PartialEq, Eq, Structural)]
pub enum HttpMethod {
    Get,
    Post,
    Put,
    Delete,
    Patch,
    Connect,
    Options,
    Trace,
    Head,
}

/// The status codes this server answers with.
#[derive(Debug, Clone, Copy, PartialEq, Eq, Structural)]
pub enum StatusCode {
    /// 200
    Success,
    /// 404
    NotFound,
}

impl StatusCode {
    /// The numeric code.
    pub fn as_u16(&self) -> (n: u16)
        ensures
            *self == StatusCode::Success ==> n == 200,
            *self == StatusCode::NotFound ==> n == 404,
    {
        match self {
            StatusCode::Success => 200,
            StatusCode::NotFound => 404,
        }
    }
}

/// Where the body of a response is.
#[derive(Debug, Clone, Copy, PartialEq, Eq)]
pub enum ResponseBody {
    /// A fixed text.
    Text(&'static str),
    /// The server's response buffer.
    Buffer,
}

/// A response: status and body.
#[derive(Debug, Clone, Copy, PartialEq, Eq)]
pub struct HttpResponse {
    pub status_code: StatusCode,
    pub body: ResponseBody,
}

/// Counts `method` in `metrics`: GET and POST each have a counter; requests with
/// other methods are not counted.
pub open spec fn counted(before: Metrics, after: Metrics, method: HttpMethod) -> bool {
    &&& after.http_get_requests.spec_name() == before.http_get_requests.spec_name()
    &&& after.http_get_requests.spec_labels() == before.http_get_requests.spec_labels()
    &&& after.http_post_requests.spec_name() == before.http_post_requests.spec_name()
    &&& after.http_post_requests.spec_labels() == before.http_post_requests.spec_labels()
    &&& after.http_get_requests.spec_value() == if method == HttpMethod::Get {
        wrapping_add_usize(before.http_get_requests.spec_value(), 1)
    } else {
        before.http_get_requests.spec_value()
    }
    &&& after.http_post_requests.spec_value() == if method == HttpMethod::Post {
        wrapping_add_usize(before.http_post_requests.spec_value(), 1)
    } else {
        before.http_post_requests.spec_value()
    }
}

/// Only GET and POST requests are counted, each by its own counter, which grows
/// by one (wrapping at `usize::MAX`); a request with any other method leaves both
/// counters as they were.
pub proof fn lemma_counted_by_method(before: Metrics, after: Metrics, method: HttpMethod)
    requires
        counted(before, after, method),
    ensures
        method != HttpMethod::Get && method != HttpMethod::Post ==> {
            &&& after.http_get_requests.spec_value() == before.http_get_requests.spec_value()
            &&& after.http_post_requests.spec_value() == before.http_post_requests.spec_value()
        },
        method == HttpMethod::Get ==> {
            &&& after.http_post_requests.spec_value() == before.http_post_requests.spec_value()
            &&& after.http_get_requests.spec_value() == (if before.http_get_requests.spec_value()
                == usize::MAX {
                0
            } else {
                before.http_get_requests.spec_value() + 1
            })
        },
        method == HttpMethod::Post ==> {
            &&& after.http_get_requests.spec_value() == before.http_get_requests.spec_value()
            &&& after.http_post_requests.spec_value() == (if before.http_post_requests.spec_value()
                == usize::MAX {
                0
            } else {
                before.http_post_requests.spec_value() + 1
            })
        },
        after.http_get_requests.spec_value() != before.http_get_requests.spec_value()
            ==> method == HttpMethod::Get,
        after.http_post_requests.spec_value() != before.http_post_requests.spec_value()
            ==> method == HttpMethod::Post,
{
}

/// Answers HTTP requests; the body of a metrics response is built in its buffer.
#[derive(Debug)]
pub struct HttpServer {
    response_buffer: HttpResponseBuffer,
}

impl HttpServer {
    /// The bytes of the last metrics body.
    pub closed spec fn spec_buffer(&self) -> Seq<u8> {
        self.response_buffer@
    }

    /// A server with an empty response buffer.
    pub fn new() -> (s: Self)
        ensures
            s.spec_buffer() == Seq::<u8>::empty(),
    {
        HttpServer { response_buffer: HttpResponseBuffer::new() }
    }

    /// The response buffer, which holds the body of the last metrics response.
    pub fn response_buffer(&self) -> (b: &HttpResponseBuffer)
        ensures
            b@ == self.spec_buffer(),
    {
        &self.response_buffer
    }

    /// Answers a request for `path` made with `method`, and counts it in `metrics`.
    ///
    /// `/healthz` answers `{"status":"ok"}`, `/pausez` answers `OK` (the caller
    /// first waits `pause_ms` of the route), `/metrics` answers the metrics as they
    /// were before this request, written into the response buffer (the body must
    /// fit: see `Metrics::body_fits`), and any other path answers 404 `Not Found`.
    pub fn handle_request(&mut self, metrics: &mut Metrics, method: HttpMethod, path: &str) -> (r:
        HttpResponse)
        requires
            route_of(path@) == Route::Metrics ==> old(metrics).spec_text().len() <= RESPONSE_BUFFER_SIZE,
        ensures
            route_of(path@) == Route::Healthz ==> r.status_code == StatusCode::Success && (r.body matches ResponseBody::Text(t) && t@ == "{\"status\":\"ok\"}"@),
            route_of(path@) == Route::Pausez ==> r.status_code == StatusCode::Success && (r.body matches ResponseBody::Text(t) && t@ == "OK"@),
            route_of(path@) == Route::Metrics ==> r.status_code == StatusCode::Success && r.body == ResponseBody::Buffer,
            route_of(path@) == Route::NotFound ==> r.status_code == StatusCode::NotFound && (r.body matches ResponseBody::Text(t) && t@ == "Not Found"@),
            route_of(path@) == Route::Metrics ==> final(self).spec_buffer() == old(metrics).spec_text(),
            route_of(path@) != Route::Metrics ==> final(self).spec_buffer() == old(self).spec_buffer(),
            counted(*old(metrics), *final(metrics), method),
            path@ == "/healthz"@ ==> r == (HttpResponse {
                status_code: StatusCode::Success,
                body: r.body,
            }) && (r.body matches ResponseBody::Text(t) && t@ == "{\"status\":\"ok\"}"@),
            path@ == "/pausez"@ ==> r.status_code == StatusCode::Success && (r.body matches ResponseBody::Text(t) && t@ == "OK"@),
            path@ == "/metrics"@ ==> r.status_code == StatusCode::Success && r.body == ResponseBody::Buffer
                && final(self).spec_buffer() == old(metrics).spec_text(),
            (path@ != "/healthz"@ && path@ != "/pausez"@ && path@ != "/metrics"@) ==> r.status_code
                == StatusCode::NotFound && (r.body matches ResponseBody::Text(t) && t@ == "Not Found"@)
                && final(self).spec_buffer() == old(self).spec_buffer(),
            method != HttpMethod::Get ==> final(metrics).http_get_requests.spec_value()
                == old(metrics).http_get_requests.spec_value(),
            method != HttpMethod::Post ==> final(metrics).http_post_requests.spec_value()
                == old(metrics).http_post_requests.spec_value(),
            method == HttpMethod::Get ==> final(metrics).http_get_requests.spec_value() == (if old(
                metrics,
            ).http_get_requests.spec_value() == usize::MAX {
                0
            } else {
                old(metrics).http_get_requests.spec_value() + 1
            }),
            method == HttpMethod::Post ==> final(metrics).http_post_requests.spec_value() == (if old(
                metrics,
            ).http_post_requests.spec_value() == usize::MAX {
                0
            } else {
                old(metrics).http_post_requests.spec_value() + 1
            }),
    {
        let response = match route(path) {
            Route::Healthz => HttpResponse {
                status_code: StatusCode::Success,
                body: ResponseBody::Text("{\"status\":\"ok\"}"),
            },
            Route::Pausez => HttpResponse { status_code: StatusCode::Success, body: ResponseBody::Text("OK") },
            Route::Metrics => {
                self.response_buffer.clear();
                metrics.write_http_body(&mut self.response_buffer);
                HttpResponse { status_code: StatusCode::Success, body: ResponseBody::Buffer }
            },
            Route::NotFound => HttpResponse {
                status_code: StatusCode::NotFound,
                body: ResponseBody::Text("Not Found"),
            },
        };

        match method {
            HttpMethod::Get => {
                metrics.http_get_requests.inc(1);
            },
            HttpMethod::Post => {
                metrics.http_post_requests.inc(1);
            },
            _ => {},
        }

        response
    }
}

impl Default for HttpServer {
    fn default() -> (s: Self)
        ensures
            s.spec_buffer() == Seq::<u8>::empty(),
    {
        Self::new()
    }
}

} // verus!
