//! Refund rules: the result of an issued refund, the prorated amount owed for
//! the unused part of a billing period, and which paid charge can be refunded.

use vstd::prelude::*;
use crate::error::BillingError;
use crate::ids::{uuid_hyphenated, uuid_text};
use crate::metadata::Metadata;
use crate::reactivation::clamp_i64;
use crate::timeutil::{Timestamp, valid_unix_timestamp, whole_days};

verus! {

/// Result of a refund operation
#[derive(Debug, Clone)]
pub struct RefundResult {
    /// Stripe refund ID
    pub stripe_refund_id: String,
    /// Stripe charge ID that was refunded
    pub stripe_charge_id: String,
    /// Amount refunded in cents
    pub amount_cents: i64,
    /// Refund type: "refund" (actual money back) or "credit" (Stripe account credit)
    pub refund_type: String,
}

/// The result reported once Stripe has accepted a refund of `amount_cents`
/// on `charge_id`: always of type `refund`.
pub fn completed_refund_result(stripe_refund_id: String, charge_id: &str, amount_cents: i64) -> (r: RefundResult)
    ensures
        r.stripe_refund_id == stripe_refund_id,
        r.stripe_charge_id@ == charge_id@,
        r.amount_cents == amount_cents,
        r.refund_type@ == "refund"@,
{
    RefundResult {
        stripe_refund_id,
        stripe_charge_id: charge_id.to_owned(),
        amount_cents,
        refund_type: "refund".to_owned(),
    }
}

/// Information about a refundable charge
#[derive(Debug, Clone)]
pub struct RefundableCharge {
    /// Stripe charge ID
    pub charge_id: String,
    /// Stripe invoice ID
    pub invoice_id: String,
    /// Amount paid in cents
    pub amount_cents: i64,
    /// When the billing period started
    pub period_start: Timestamp,
    /// When the billing period ends
    pub period_end: Timestamp,
    /// When the charge was created
    pub created_at: Timestamp,
}

/// The error of a failed refund: Stripe's error text.
pub fn refund_failed(stripe_error: String) -> (r: BillingError)
    ensures
        r == BillingError::RefundFailed(stripe_error),
{
    BillingError::RefundFailed(stripe_error)
}

/// The metadata of an admin refund, for audit.
pub fn refund_metadata(
    admin_user_id: u128,
    org_id: u128,
    old_tier: &str,
    new_tier: &str,
    reason: &str,
) -> (m: Metadata)
    ensures
        m@ == Map::<Seq<char>, Seq<char>>::empty().insert("admin_refund"@, "true"@)
            .insert("admin_user_id"@, uuid_hyphenated(admin_user_id)).insert("org_id"@, uuid_hyphenated(org_id))
            .insert("old_tier"@, old_tier@).insert("new_tier"@, new_tier@).insert("reason"@, reason@),
{
    let mut m = Metadata::new();
    m.insert("admin_refund".to_owned(), "true".to_owned());
    m.insert("admin_user_id".to_owned(), uuid_text(admin_user_id));
    m.insert("org_id".to_owned(), uuid_text(org_id));
    m.insert("old_tier".to_owned(), old_tier.to_owned());
    m.insert("new_tier".to_owned(), new_tier.to_owned());
    m.insert("reason".to_owned(), reason.to_owned());
    m
}

/// The latest paid invoice of a subscription as a refund reads it.
pub struct PaidInvoice {
    pub invoice_id: String,
    pub charge_id: Option<String>,
    pub created: Option<i64>,
    pub period_start: Option<i64>,
    pub period_end: Option<i64>,
    pub amount_paid: Option<i64>,
}

/// A date of an invoice: the timestamp read as a date (now when it is none),
/// now when missing.
pub open spec fn invoice_date(ts: Option<i64>, now: Timestamp) -> i64 {
    match ts {
        Some(t) => if valid_unix_timestamp(t) { t } else { now@ },
        None => now@,
    }
}

/// Stripe refunds a charge for 90 days.
pub const REFUND_WINDOW_DAYS: i64 = 90;

/// The charge that can be refunded for a subscription, from its latest paid
/// invoice: refused when there is no such invoice or it has no charge
/// (`NoRefundableCharge`), when its creation time (zero when missing) is no
/// date (`RefundFailed`), or when it is more than 90 whole days old
/// (`ChargeExpiredForRefund`); otherwise the charge, the invoice, the amount
/// paid (zero when missing) and the period (each date now when missing or
/// unreadable).
pub fn refundable_charge(invoice: Option<PaidInvoice>, now: Timestamp) -> (r: Result<RefundableCharge, BillingError>)
    ensures
        match invoice {
            None => r == Err::<RefundableCharge, BillingError>(BillingError::NoRefundableCharge),
            Some(inv) => match inv.charge_id {
                None => r == Err::<RefundableCharge, BillingError>(BillingError::NoRefundableCharge),
                Some(charge) => {
                    let created = match inv.created { Some(c) => c, None => 0i64 };
                    if !valid_unix_timestamp(created) {
                        r matches Err(BillingError::RefundFailed(m)) && m@ == "Invalid charge timestamp"@
                    } else if whole_days(now@ - created) > 90 {
                        r == Err::<RefundableCharge, BillingError>(BillingError::ChargeExpiredForRefund)
                    } else {
                        r matches Ok(c) && c.charge_id == charge && c.invoice_id == inv.invoice_id
                            && c.amount_cents == (match inv.amount_paid { Some(a) => a, None => 0i64 })
                            && c.period_start@ == invoice_date(inv.period_start, now)
                            && c.period_end@ == invoice_date(inv.period_end, now)
                            && c.created_at@ == created
                    }
                },
            },
        },
{
    let inv = match invoice {
        None => return Err(BillingError::NoRefundableCharge),
        Some(i) => i,
    };
    let charge_id = match inv.charge_id {
        None => return Err(BillingError::NoRefundableCharge),
        Some(c) => c,
    };
    let created_secs = match inv.created {
        Some(c) => c,
        None => 0,
    };
    let created = match Timestamp::from_unix(created_secs) {
        None => return Err(BillingError::RefundFailed("Invalid charge timestamp".to_owned())),
        Some(t) => t,
    };
    let age: i128 = (now.unix() as i128) - (created.unix() as i128);
    let days: i128 = if age >= 0 { age / 86400 } else { 0i128 - ((0i128 - age) / 86400) };
    assert(days == whole_days(now@ - created@));
    if days > REFUND_WINDOW_DAYS as i128 {
        return Err(BillingError::ChargeExpiredForRefund);
    }
    let period_start = match inv.period_start {
        Some(t) => Timestamp::from_unix_or(t, now),
        None => now,
    };
    let period_end = match inv.period_end {
        Some(t) => Timestamp::from_unix_or(t, now),
        None => now,
    };
    let amount_cents = match inv.amount_paid {
        Some(a) => a,
        None => 0,
    };
    Ok(RefundableCharge {
        charge_id,
        invoice_id: inv.invoice_id,
        amount_cents,
        period_start,
        period_end,
        created_at: created,
    })
}

/// The prorated refund for the unused part of a period at time `now`:
/// nothing once the period has ended or when it spans no whole day;
/// otherwise the amount times the whole days remaining (none below zero)
/// over the whole days of the period: the exact quotient, rounded down.
pub open spec fn prorated_amount(amount: int, start: int, end: int, now: int) -> int {
    if now >= end {
        0
    } else {
        let total = whole_days(end - start);
        if total <= 0 {
            0
        } else {
            let remaining = if whole_days(end - now) > 0 { whole_days(end - now) } else { 0 };
            clamp_i64((amount * remaining) / total) as int
        }
    }
}

/// Whole days of a span of seconds, as `time::Duration::whole_days` counts them.
fn whole_days_i128(secs: i128) -> (r: i128)
    requires
        -0x1_0000_0000_0000_0000 < secs < 0x1_0000_0000_0000_0000,
    ensures
        r == whole_days(secs as int),
        -0x1_0000_0000_0000 < r < 0x1_0000_0000_0000,
{
    if secs >= 0 { secs / 86400 } else { 0i128 - ((0i128 - secs) / 86400) }
}

/// Floor division of a negative number through that of its magnitude.
proof fn lemma_negative_floor_div(p: int, t: int)
    requires
        p < 0,
        t > 0,
    ensures
        p / t == (if (-p) % t == 0 { -((-p) / t) } else { -((-p) / t) - 1 }),
{
    let m = -p;
    let f = m / t;
    let rr = m % t;
    assert(m == t * f + rr) by (nonlinear_arith)
        requires
            t > 0,
            f == m / t,
            rr == m % t,
    {
    }
    if rr == 0 {
        assert(p == t * (-f)) by (nonlinear_arith)
            requires
                m == t * f,
                p == -m,
        {
        }
        vstd::arithmetic::div_mod::lemma_div_multiples_vanish(-f, t);
    } else {
        assert(p == t * (-f - 1) + (t - rr)) by (nonlinear_arith)
            requires
                m == t * f + rr,
                p == -m,
        {
        }
        vstd::arithmetic::div_mod::lemma_fundamental_div_mod_converse(p, t, -f - 1, t - rr);
    }
}

/// The prorated refund for the unused part of a period, at time `now`.
pub fn prorated_amount_at(invoice_amount_cents: i64, period_start: Timestamp, period_end: Timestamp, now: Timestamp) -> (r: i64)
    ensures
        r == prorated_amount(invoice_amount_cents as int, period_start@ as int, period_end@ as int, now@ as int),
{
    let end = period_end.unix() as i128;
    let start = period_start.unix() as i128;
    let n = now.unix() as i128;
    if n >= end {
        return 0;
    }
    let total = whole_days_i128(end - start);
    if total <= 0 {
        return 0;
    }
    let rem_days = whole_days_i128(end - n);
    let remaining: i128 = if rem_days > 0 { rem_days } else { 0 };
    let amount = invoice_amount_cents as i128;
    assert(-0x8000_0000_0000_0000_0000_0000_0000 < amount * remaining < 0x8000_0000_0000_0000_0000_0000_0000) by (nonlinear_arith)
        requires
            -0x8000_0000_0000_0000 <= amount < 0x8000_0000_0000_0000,
            0 <= remaining < 0x1_0000_0000_0000,
    {
    }
    let product: i128 = amount * remaining;
    let q: i128 = if product >= 0 {
        product / total
    } else {
        let m: i128 = 0i128 - product;
        let f = m / total;
        let rr = m % total;
        proof {
            lemma_negative_floor_div(product as int, total as int);
        }
        if rr == 0 { 0i128 - f } else { 0i128 - f - 1 }
    };
    if q < i64::MIN as i128 {
        i64::MIN
    } else if q > i64::MAX as i128 {
        i64::MAX
    } else {
        q as i64
    }
}

/// Calculate prorated refund amount based on remaining days in billing period
///
/// Always floors the result to avoid over-refunding.
pub fn calculate_prorated_amount(invoice_amount_cents: i64, period_start: Timestamp, period_end: Timestamp) -> (r: i64)
    ensures
        exists|now: Timestamp| r == prorated_amount(invoice_amount_cents as int, period_start@ as int, period_end@ as int, now@ as int),
{
    let now = Timestamp::now();
    prorated_amount_at(invoice_amount_cents, period_start, period_end, now)
}

/// A prorated refund never exceeds what was paid: while the period runs
/// (it has started and not ended), the refund of a non-negative amount lies
/// between zero and the amount.
pub proof fn lemma_prorated_refund_at_most_paid(amount: int, start: int, end: int, now: int)
    requires
        0 <= amount <= i64::MAX,
        start <= now < end,
    ensures
        0 <= prorated_amount(amount, start, end, now) <= amount,
{
    let total = whole_days(end - start);
    if total > 0 {
        let remaining = if whole_days(end - now) > 0 { whole_days(end - now) } else { 0 };
        assert(0 <= remaining <= total) by {
            assert(end - now <= end - start);
            assert((end - now) / 86400 <= (end - start) / 86400) by (nonlinear_arith)
                requires
                    0 < end - now <= end - start,
            {
            }
        }
        assert(0 <= (amount * remaining) / total <= amount) by (nonlinear_arith)
            requires
                0 <= amount,
                0 <= remaining <= total,
                total > 0,
        {
            assert(amount * remaining <= amount * total);
        }
    }
}

} // verus!
