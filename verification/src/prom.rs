//! Prometheus metrics in the text exposition format: counters and integer
//! gauges, each rendered as `name {labels} value` on a line of its own.

use vstd::prelude::*;
use vstd::string::StringSliceAdditionalSpecFns;
use vstd::utf8::{encode_utf8_valid_utf8, valid_utf8, valid_utf8_concat};
use crate::http::{fits, lemma_ascii_valid_utf8, HttpResponseBuffer, RESPONSE_BUFFER_SIZE};

verus! {

/// The ASCII decimal digits of `n`, most significant first, without leading zeros.
pub open spec fn decimal(n: nat) -> Seq<u8>
    decreases n,
{
    if n < 10 {
        seq![(48 + n) as u8]
    } else {
        decimal(n / 10).push((48 + n % 10) as u8)
    }
}

/// Every byte of `decimal(n)` is an ASCII digit, and there is at least one.
pub proof fn lemma_decimal_digits(n: nat)
    ensures
        decimal(n).len() >= 1,
        forall|i: int| 0 <= i < decimal(n).len() ==> 48 <= #[trigger] decimal(n)[i] <= 57,
        decimal(n).len() == 1 <==> n < 10,
        n >= 10 ==> decimal(n)[0] != 48,
    decreases n,
{
    if n >= 10 {
        lemma_decimal_digits(n / 10);
        assert(decimal(n)[0] == decimal(n / 10)[0]);
        let q = n / 10;
        if q < 10 {
            assert(decimal(q) == seq![(48 + q) as u8]);
        }
    }
}

/// The number that ASCII decimal digits stand for.
pub open spec fn digits_value(digits: Seq<u8>) -> nat
    decreases digits.len(),
{
    if digits.len() == 0 {
        0
    } else {
        digits_value(digits.drop_last()) * 10 + (digits.last() - 48) as nat
    }
}

/// Reading `decimal(n)` back gives `n`.
pub proof fn lemma_decimal_round_trip(n: nat)
    ensures
        digits_value(decimal(n)) == n,
    decreases n,
{
    let d = decimal(n);
    if n < 10 {
        assert(d.drop_last() =~= Seq::<u8>::empty());
        assert(d.last() == (48 + n) as u8);
        assert(digits_value(d) == digits_value(d.drop_last()) * 10 + (d.last() - 48) as nat);
    } else {
        lemma_decimal_round_trip(n / 10);
        assert(d.drop_last() =~= decimal(n / 10));
        assert(d.last() == (48 + n % 10) as u8);
        assert(digits_value(d) == digits_value(d.drop_last()) * 10 + (d.last() - 48) as nat);
        assert(n == (n / 10) * 10 + n % 10);
    }
}

/// The decimal digits of `n`, as `Display` writes them for an unsigned integer.
pub fn decimal_bytes(n: usize) -> (r: Vec<u8>)
    ensures
        r@ == decimal(n as nat),
    decreases n,
{
    if n < 10 {
        let mut v: Vec<u8> = Vec::new();
        v.push(48 + n as u8);
        v
    } else {
        let mut v = decimal_bytes(n / 10);
        v.push(48 + (n % 10) as u8);
        v
    }
}

/// One exposition line: `name {labels} value` and a newline.
pub open spec fn metric_line(name: Seq<u8>, labels: Seq<u8>, value: nat) -> Seq<u8> {
    name + seq![32u8, 123u8] + labels + seq![125u8, 32u8] + decimal(value) + seq![10u8]
}

/// A metric line is valid UTF-8: the name and labels come from text, the rest is ASCII.
pub proof fn lemma_metric_line_valid_utf8(name: &str, labels: &str, value: nat)
    ensures
        valid_utf8(metric_line(name.spec_bytes(), labels.spec_bytes(), value)),
{
    encode_utf8_valid_utf8(name@);
    encode_utf8_valid_utf8(labels@);
    lemma_decimal_digits(value);
    let ob = seq![32u8, 123u8];
    let cb = seq![125u8, 32u8];
    let nl = seq![10u8];
    lemma_ascii_valid_utf8(ob);
    lemma_ascii_valid_utf8(cb);
    lemma_ascii_valid_utf8(nl);
    lemma_ascii_valid_utf8(decimal(value));
    let n = name.spec_bytes();
    let l = labels.spec_bytes();
    valid_utf8_concat(n, ob);
    valid_utf8_concat(n + ob, l);
    valid_utf8_concat(n + ob + l, cb);
    valid_utf8_concat(n + ob + l + cb, decimal(value));
    valid_utf8_concat(n + ob + l + cb + decimal(value), nl);
}

/// The length of the metric line for `name`, `labels` and `value`, or `None`
/// when it is longer than the response buffer.
fn line_len(name: &str, labels: &str, value: usize) -> (r: Option<usize>)
    ensures
        r is Some <==> metric_line(name.spec_bytes(), labels.spec_bytes(), value as nat).len()
            <= RESPONSE_BUFFER_SIZE,
        r matches Some(n) ==> n == metric_line(name.spec_bytes(), labels.spec_bytes(), value as nat).len(),
{
    let d = decimal_bytes(value).len();
    let n = name.as_bytes().len();
    let l = labels.as_bytes().len();
    assert(metric_line(name.spec_bytes(), labels.spec_bytes(), value as nat).len() == n + l + d + 5);
    if n > RESPONSE_BUFFER_SIZE || l > RESPONSE_BUFFER_SIZE || d > RESPONSE_BUFFER_SIZE {
        return None;
    }
    let total = n + l + d + 5;
    if total > RESPONSE_BUFFER_SIZE {
        None
    } else {
        Some(total)
    }
}

/// Writes `name {labels} value` and a newline, in the pieces the formatter emits.
fn write_line(writer: &mut HttpResponseBuffer, name: &str, labels: &str, value: usize)
    requires
        fits(old(writer)@.len() as int, metric_line(name.spec_bytes(), labels.spec_bytes(), value as nat)),
    ensures
        final(writer)@ == old(writer)@ + metric_line(name.spec_bytes(), labels.spec_bytes(), value as nat),
{
    let ghost b0 = writer@;
    let open_brace: [u8; 2] = [32u8, 123u8];
    let close_brace: [u8; 2] = [125u8, 32u8];
    let newline: [u8; 1] = [10u8];
    let digits = decimal_bytes(value);
    proof {
        lemma_decimal_digits(value as nat);
        assert(open_brace@ =~= seq![32u8, 123u8]);
        assert(close_brace@ =~= seq![125u8, 32u8]);
        assert(newline@ =~= seq![10u8]);
        lemma_ascii_valid_utf8(open_brace@);
        lemma_ascii_valid_utf8(close_brace@);
        lemma_ascii_valid_utf8(newline@);
        lemma_ascii_valid_utf8(digits@);
    }
    writer.write_str(name);
    writer.write_text_bytes(open_brace.as_slice());
    writer.write_str(labels);
    writer.write_text_bytes(close_brace.as_slice());
    writer.write_text_bytes(digits.as_slice());
    writer.write_text_bytes(newline.as_slice());
    proof {
        assert(writer@ =~= b0 + metric_line(name.spec_bytes(), labels.spec_bytes(), value as nat));
    }
}

/// Something that can write itself in the exposition format.
pub trait Metric {
    /// The bytes this metric writes.
    spec fn spec_text(&self) -> Seq<u8>;

    /// Appends the metric to `writer`; the text must fit.
    fn write(&self, writer: &mut HttpResponseBuffer)
        requires
            fits(old(writer)@.len() as int, self.spec_text()),
        ensures
            final(writer)@ == old(writer)@ + self.spec_text(),
    ;
}

/// `old + add` wrapped around to fit in a `usize`.
pub open spec fn wrapping_add_usize(old: usize, add: usize) -> usize {
    if old + add > usize::MAX {
        (old + add - (usize::MAX + 1)) as usize
    } else {
        (old + add) as usize
    }
}

/// An integer that can be set to any value.
#[derive(Debug, Default)]
pub struct IntGauge {
    name: &'static str,
    labels: &'static str,
    val: usize,
}

impl IntGauge {
    /// The metric name.
    pub closed spec fn spec_name(&self) -> &'static str {
        self.name
    }

    /// The labels, written between braces.
    pub closed spec fn spec_labels(&self) -> &'static str {
        self.labels
    }

    /// The current value.
    pub closed spec fn spec_value(&self) -> usize {
        self.val
    }

    /// A gauge at zero.
    pub fn new(name: &'static str, labels: &'static str) -> (g: Self)
        ensures
            g.spec_name() == name,
            g.spec_labels() == labels,
            g.spec_value() == 0,
    {
        Self { name, labels, val: 0 }
    }

    /// Sets the gauge to `val`.
    pub fn set(&mut self, val: usize)
        ensures
            final(self).spec_value() == val,
            final(self).spec_name() == old(self).spec_name(),
            final(self).spec_labels() == old(self).spec_labels(),
    {
        self.val = val;
    }

    /// The current value.
    pub fn value(&self) -> (v: usize)
        ensures
            v == self.spec_value(),
    {
        self.val
    }
}

impl Metric for IntGauge {
    open spec fn spec_text(&self) -> Seq<u8> {
        metric_line(self.spec_name().spec_bytes(), self.spec_labels().spec_bytes(), self.spec_value() as nat)
    }

    fn write(&self, writer: &mut HttpResponseBuffer) {
        write_line(writer, self.name, self.labels, self.val);
    }
}

/// An integer that only grows (wrapping around at `usize::MAX`).
#[derive(Debug, Default)]
pub struct Counter {
    name: &'static str,
    labels: &'static str,
    val: usize,
}

impl Counter {
    /// The metric name.
    pub closed spec fn spec_name(&self) -> &'static str {
        self.name
    }

    /// The labels, written between braces.
    pub closed spec fn spec_labels(&self) -> &'static str {
        self.labels
    }

    /// The current count.
    pub closed spec fn spec_value(&self) -> usize {
        self.val
    }

    /// A counter at zero.
    pub fn new(name: &'static str, labels: &'static str) -> (c: Self)
        ensures
            c.spec_name() == name,
            c.spec_labels() == labels,
            c.spec_value() == 0,
    {
        Self { name, labels, val: 0 }
    }

    /// Adds `val` to the count and returns the count from before.
    pub fn inc(&mut self, val: usize) -> (prev: usize)
        ensures
            prev == old(self).spec_value(),
            final(self).spec_value() == wrapping_add_usize(old(self).spec_value(), val),
            final(self).spec_name() == old(self).spec_name(),
            final(self).spec_labels() == old(self).spec_labels(),
    {
        let prev = self.val;
        self.val = self.val.wrapping_add(val);
        prev
    }

    /// The current count.
    pub fn value(&self) -> (v: usize)
        ensures
            v == self.spec_value(),
    {
        self.val
    }

    /// The length of this counter's line, or `None` when it is longer than the
    /// response buffer.
    pub fn text_len(&self) -> (r: Option<usize>)
        ensures
            r is Some <==> self.spec_text().len() <= RESPONSE_BUFFER_SIZE,
            r matches Some(n) ==> n == self.spec_text().len(),
    {
        line_len(self.name, self.labels, self.val)
    }
}

impl Metric for Counter {
    open spec fn spec_text(&self) -> Seq<u8> {
        metric_line(self.spec_name().spec_bytes(), self.spec_labels().spec_bytes(), self.spec_value() as nat)
    }

    fn write(&self, writer: &mut HttpResponseBuffer) {
        write_line(writer, self.name, self.labels, self.val);
    }
}

} // verus!
