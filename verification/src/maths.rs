//! Integer linear mapping from an input range onto an output domain.

use vstd::prelude::*;
use vstd::arithmetic::div_mod::{lemma_div_is_ordered, lemma_div_by_multiple};
use vstd::arithmetic::mul::{lemma_mul_inequality, lemma_mul_is_commutative};

verus! {

/// Inclusive input range `(start, end)`.
pub type Range = (u32, u32);

/// Output domain `(start, end)`; `start > end` means the domain is inverted.
pub type Domain = (u32, u32);

/// `v` limited to `[lo, hi]`.
pub open spec fn clamp_spec(v: int, lo: int, hi: int) -> int {
    if v < lo {
        lo
    } else if v > hi {
        hi
    } else {
        v
    }
}

/// Distance between `a` and `b`.
pub open spec fn abs_diff_spec(a: int, b: int) -> int {
    if a < b {
        b - a
    } else {
        a - b
    }
}

/// How far the clamped `value` lies from the start of `range`.
pub open spec fn range_offset(range: Range, value: u32) -> int {
    clamp_spec(value as int, range.0 as int, range.1 as int) - range.0
}

/// The distance travelled in the domain for `value`: its offset in the range,
/// scaled by `domain span / range span` and rounded down.
pub open spec fn domain_offset(range: Range, domain: Domain, value: u32) -> int {
    range_offset(range, value) * abs_diff_spec(domain.0 as int, domain.1 as int)
        / abs_diff_spec(range.0 as int, range.1 as int)
}

/// The point of `domain` that `value` maps to: the domain start moved towards the
/// domain end by `domain_offset`.
pub open spec fn map_value(range: Range, domain: Domain, value: u32) -> int {
    if domain.0 > domain.1 {
        domain.0 - domain_offset(range, domain, value)
    } else {
        domain.0 + domain_offset(range, domain, value)
    }
}

/// The inputs on which the mapping is computed without a panic: the range must be
/// ordered and non-empty, and the intermediate product must fit in a `u32`.
pub open spec fn map_defined(range: Range, domain: Domain, value: u32) -> bool {
    &&& range.0 < range.1
    &&& range_offset(range, value) * abs_diff_spec(domain.0 as int, domain.1 as int) <= u32::MAX
}

/// Maps values of an input range linearly onto an output domain.
#[derive(Debug)]
pub struct RangeDomainMapper {
    range: Range,
    domain: Domain,
}

impl View for RangeDomainMapper {
    type V = (Range, Domain);

    closed spec fn view(&self) -> (Range, Domain) {
        (self.range, self.domain)
    }
}

/// The domain offset never exceeds the span of the domain.
proof fn lemma_domain_offset_bounded(range: Range, domain: Domain, value: u32)
    requires
        range.0 < range.1,
    ensures
        0 <= domain_offset(range, domain, value) <= abs_diff_spec(domain.0 as int, domain.1 as int),
{
    let off = range_offset(range, value);
    let rspan = abs_diff_spec(range.0 as int, range.1 as int);
    let dspan = abs_diff_spec(domain.0 as int, domain.1 as int);
    assert(0 <= off <= rspan);
    lemma_mul_inequality(off, rspan, dspan);
    lemma_mul_is_commutative(rspan, dspan);
    assert(0 <= off * dspan) by (nonlinear_arith)
        requires
            0 <= off,
            0 <= dspan,
    ;
    lemma_div_is_ordered(off * dspan, rspan * dspan, rspan);
    lemma_div_by_multiple(dspan, rspan);
    lemma_div_is_ordered(0, off * dspan, rspan);
}

/// The start of the range maps to the start of the domain, and the end of the
/// range to the end of the domain.
pub proof fn lemma_map_endpoints(range: Range, domain: Domain)
    requires
        range.0 < range.1,
    ensures
        map_value(range, domain, range.0) == domain.0,
        map_value(range, domain, range.1) == domain.1,
{
    let rspan = abs_diff_spec(range.0 as int, range.1 as int);
    let dspan = abs_diff_spec(domain.0 as int, domain.1 as int);
    assert(range_offset(range, range.0) == 0);
    assert(range_offset(range, range.1) == rspan);
    lemma_mul_is_commutative(rspan, dspan);
    lemma_div_by_multiple(dspan, rspan);
}

/// Every mapped value lies between the two ends of the domain.
pub proof fn lemma_map_within_domain(range: Range, domain: Domain, value: u32)
    requires
        range.0 < range.1,
    ensures
        domain.0 <= domain.1 ==> domain.0 <= map_value(range, domain, value) <= domain.1,
        domain.0 > domain.1 ==> domain.1 <= map_value(range, domain, value) <= domain.0,
{
    lemma_domain_offset_bounded(range, domain, value);
}

/// The mapping follows the direction of the domain: it never decreases as the
/// input grows when the domain is ascending, and never increases when it is inverted.
pub proof fn lemma_map_monotonic(range: Range, domain: Domain, v1: u32, v2: u32)
    requires
        range.0 < range.1,
        v1 <= v2,
    ensures
        domain.0 <= domain.1 ==> map_value(range, domain, v1) <= map_value(range, domain, v2),
        domain.0 > domain.1 ==> map_value(range, domain, v1) >= map_value(range, domain, v2),
{
    let o1 = range_offset(range, v1);
    let o2 = range_offset(range, v2);
    let rspan = abs_diff_spec(range.0 as int, range.1 as int);
    let dspan = abs_diff_spec(domain.0 as int, domain.1 as int);
    assert(o1 <= o2);
    lemma_mul_inequality(o1, o2, dspan);
    lemma_div_is_ordered(o1 * dspan, o2 * dspan, rspan);
}

/// Inputs outside the range map like the nearest end of the range.
pub proof fn lemma_map_clamps(range: Range, domain: Domain, value: u32)
    requires
        range.0 < range.1,
    ensures
        value <= range.0 ==> map_value(range, domain, value) == map_value(range, domain, range.0),
        value >= range.1 ==> map_value(range, domain, value) == map_value(range, domain, range.1),
{
}

impl RangeDomainMapper {
    /// A mapper from `range` onto `domain`.
    pub fn new(range: Range, domain: Domain) -> (m: Self)
        ensures
            m@ == (range, domain),
    {
        Self { range, domain }
    }

    /// The input range.
    pub fn range(&self) -> (r: Range)
        ensures
            r == self@.0,
    {
        self.range
    }

    /// Maps `value` into the domain. Values outside the range are first clamped
    /// to it; the arithmetic is done on integers and rounds towards the domain start.
    pub fn value(&self, value: &u32) -> (r: u32)
        requires
            map_defined(self@.0, self@.1, *value),
        ensures
            r == map_value(self@.0, self@.1, *value),
    {
        let (range_start, range_end) = self.range;
        let (domain_start, domain_end) = self.domain;
        let clamped = if *value < range_start {
            range_start
        } else if *value > range_end {
            range_end
        } else {
            *value
        };

        let range_span = if range_start < range_end {
            range_end - range_start
        } else {
            range_start - range_end
        };
        let domain_span = if domain_start < domain_end {
            domain_end - domain_start
        } else {
            domain_start - domain_end
        };
        let inverse_domain = domain_start > domain_end;

        let value_offset = clamped - range_start;
        proof {
            lemma_domain_offset_bounded(self.range, self.domain, *value);
        }
        let offset = value_offset * domain_span / range_span;
        if inverse_domain {
            domain_start - offset
        } else {
            domain_start + offset
        }
    }
}

} // verus!
