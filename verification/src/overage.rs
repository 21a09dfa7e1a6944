//! Overage pricing: requests beyond a plan's limit are billed per started
//! batch of requests.

use vstd::prelude::*;

verus! {

/// Overage rates: a price per batch of requests over the plan limit.
#[derive(Debug, Clone, Copy)]
pub struct OverageRates {
    /// Price of one batch of overage requests, in cents
    pub requests_per_1k_cents: i64,
    /// Number of requests in one batch
    pub requests_batch_size: i64,
}

/// Number of started batches needed for `overage` requests.
pub open spec fn batches_for(overage: int, batch_size: int) -> int {
    if overage <= 0 {
        0
    } else if overage % batch_size == 0 {
        overage / batch_size
    } else {
        overage / batch_size + 1
    }
}

/// The charge for `overage` requests: every started batch costs the batch
/// price; no overage (zero or negative) costs nothing.
pub open spec fn overage_charge(overage: int, batch_size: int, batch_price: int) -> int {
    batches_for(overage, batch_size) * batch_price
}

impl Default for OverageRates {
    /// $0.50 per started batch of 1,000 requests.
    fn default() -> (r: Self)
        ensures
            r.requests_per_1k_cents == 50,
            r.requests_batch_size == 1000,
    {
        OverageRates { requests_per_1k_cents: 50, requests_batch_size: 1000 }
    }
}

impl OverageRates {
    /// The charge in cents for `overage` requests beyond the limit.
    pub fn calculate_request_overage_cents(&self, overage: i64) -> (r: i64)
        requires
            self.requests_batch_size > 0,
            i64::MIN <= overage_charge(
                overage as int,
                self.requests_batch_size as int,
                self.requests_per_1k_cents as int,
            ) <= i64::MAX,
        ensures
            r == overage_charge(
                overage as int,
                self.requests_batch_size as int,
                self.requests_per_1k_cents as int,
            ),
    {
        if overage <= 0 {
            assert(batches_for(overage as int, self.requests_batch_size as int) == 0);
            assert(0 * (self.requests_per_1k_cents as int) == 0) by (nonlinear_arith);
            return 0;
        }
        let size = self.requests_batch_size;
        proof {
            if size > 1 {
                vstd::arithmetic::div_mod::lemma_div_decreases(overage as int, size as int);
            }
        }
        let batches: i64 = if overage % size == 0 { overage / size } else { overage / size + 1 };
        assert(batches as int * self.requests_per_1k_cents == overage_charge(
            overage as int,
            size as int,
            self.requests_per_1k_cents as int,
        ));
        batches * self.requests_per_1k_cents
    }
}

/// A started batch costs as much as a full one: nothing is charged at or
/// below the limit, a positive overage is billed for the fewest batches that
/// cover it, and the charge never decreases as usage grows.
pub proof fn lemma_overage_charge_bounds(overage: int, more: int, batch_size: int, batch_price: int)
    requires
        batch_size > 0,
        batch_price >= 0,
        overage <= more,
    ensures
        overage <= 0 ==> overage_charge(overage, batch_size, batch_price) == 0,
        overage > 0 ==> batches_for(overage, batch_size) * batch_size >= overage,
        overage > 0 ==> (batches_for(overage, batch_size) - 1) * batch_size < overage,
        overage_charge(overage, batch_size, batch_price) <= overage_charge(more, batch_size, batch_price),
{
    if overage > 0 {
        let b = batches_for(overage, batch_size);
        let q = overage / batch_size;
        let r = overage % batch_size;
        vstd::arithmetic::div_mod::lemma_fundamental_div_mod(overage, batch_size);
        assert(overage == batch_size * q + r && 0 <= r < batch_size);
        assert(b * batch_size >= overage && (b - 1) * batch_size < overage) by (nonlinear_arith)
            requires
                overage == batch_size * q + r,
                0 <= r < batch_size,
                b == (if r == 0 { q } else { q + 1 }),
        ;
    }
    let b1 = batches_for(overage, batch_size);
    let b2 = batches_for(more, batch_size);
    if overage > 0 {
        lemma_div_monotone(overage, more, batch_size);
        let q1 = overage / batch_size;
        let q2 = more / batch_size;
        vstd::arithmetic::div_mod::lemma_fundamental_div_mod(overage, batch_size);
        vstd::arithmetic::div_mod::lemma_fundamental_div_mod(more, batch_size);
        assert(overage == batch_size * q1 + overage % batch_size);
        assert(more == batch_size * q2 + more % batch_size);
        assert(b1 <= b2) by (nonlinear_arith)
            requires
                overage == batch_size * q1 + overage % batch_size,
                more == batch_size * q2 + more % batch_size,
                0 <= overage % batch_size < batch_size,
                0 <= more % batch_size < batch_size,
                q1 <= q2,
                overage <= more,
                b1 == (if overage % batch_size == 0 { q1 } else { q1 + 1 }),
                b2 == (if more % batch_size == 0 { q2 } else { q2 + 1 }),
        ;
    } else if more > 0 {
        assert(b2 >= 0);
    }
    assert(b1 * batch_price <= b2 * batch_price) by (nonlinear_arith)
        requires b1 <= b2, batch_price >= 0;
}

proof fn lemma_div_monotone(a: int, b: int, d: int)
    requires
        0 <= a <= b,
        d > 0,
    ensures
        a / d <= b / d,
{
    vstd::arithmetic::div_mod::lemma_div_is_ordered(a, b, d);
}

} // verus!
