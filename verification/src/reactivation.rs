//! Reactivating a cancelled subscription: the credit left on the cancelled
//! period, the overages it must cover, the trial days it buys on the new
//! subscription, the coupon that carries a partial credit to checkout, and
//! what the reactivation reports.

use vstd::prelude::*;
use crate::error::BillingError;
use crate::ids::{uuid_hyphenated, uuid_simple, uuid_simple_text, uuid_text};
use crate::metadata::Metadata;
use crate::subscriptions::TierChangeOptions;
use crate::text::{
    ascii_lower, cents_text, int_text, nat_text, push_cents_text, push_char, push_int_text,
    push_nat_text, str_eq,
};
use crate::timeutil::{Timestamp, chrono_now_seconds, valid_unix_timestamp};
use crate::subscriptions::ascii_lowercase;

verus! {

/// Information about a cancelled subscription
#[derive(Debug, Clone)]
pub struct CancelledSubscriptionInfo {
    pub stripe_subscription_id: String,
    pub stripe_price_id: Option<String>,
    pub current_period_start: Timestamp,
    pub current_period_end: Timestamp,
    pub canceled_at: Option<Timestamp>,
}

/// Result of reactivating a cancelled subscription
#[derive(Debug, Clone)]
pub struct ReactivationResult {
    /// Stripe subscription ID of the new subscription
    pub stripe_subscription_id: String,
    /// Stripe customer ID
    pub stripe_customer_id: String,
    /// The new tier
    pub tier: String,
    /// Billing interval ("monthly" or "annual")
    pub billing_interval: String,
    /// Credit applied from cancelled subscription (in cents)
    pub credit_applied_cents: i64,
    /// Extra trial days applied (from credit)
    pub extra_trial_days: i32,
    /// Overages deducted from credit (in cents)
    pub overages_deducted_cents: i64,
    /// Current period end of the new subscription
    pub current_period_end: Timestamp,
    /// Trial end date if credit was applied
    pub trial_end: Option<Timestamp>,
    /// Message explaining what happened
    pub message: String,
}

/// The price assumed for a cancelled subscription whose price is unknown:
/// Pro monthly, $29.
pub const DEFAULT_CANCELLED_PRICE_CENTS: i64 = 2900;

/// The smallest credit a coupon is made for, in cents.
pub const MIN_COUPON_CENTS: i64 = 50;

/// The longest trial a reactivation credit buys, in days.
pub const MAX_CREDIT_TRIAL_DAYS: i32 = 90;

// =========================================================================
// Preconditions
// =========================================================================

/// A reactivation must be to a paid tier.
pub fn validate_reactivation_tier(new_tier: &str) -> (r: Result<(), BillingError>)
    ensures
        r is Ok <==> new_tier@ != "free"@,
        r is Err ==> (r matches Err(BillingError::InvalidTier(m))
            && m@ == "Cannot reactivate to free tier - use downgrade instead"@),
{
    if str_eq(new_tier, "free") {
        Err(BillingError::InvalidTier("Cannot reactivate to free tier - use downgrade instead".to_owned()))
    } else {
        Ok(())
    }
}

/// The organization's Stripe customer, which a reactivation needs.
pub fn require_customer(customer_id: Option<String>) -> (r: Result<String, BillingError>)
    ensures
        customer_id matches Some(c) ==> r == Ok::<String, BillingError>(c),
        customer_id is None ==> r == Err::<String, BillingError>(BillingError::NoCustomer),
{
    match customer_id {
        Some(c) => Ok(c),
        None => Err(BillingError::NoCustomer),
    }
}

/// The organization's most recent cancelled subscription, else
/// `NoCancelledSubscription` with the organization's ID.
pub fn require_cancelled(org_id: u128, found: Option<CancelledSubscriptionInfo>) -> (r: Result<CancelledSubscriptionInfo, BillingError>)
    ensures
        found matches Some(c) ==> r == Ok::<CancelledSubscriptionInfo, BillingError>(c),
        found is None ==> (r matches Err(BillingError::NoCancelledSubscription(m)) && m@ == uuid_hyphenated(org_id)),
{
    match found {
        Some(c) => Ok(c),
        None => Err(BillingError::NoCancelledSubscription(uuid_text(org_id))),
    }
}

// =========================================================================
// The credit left on the cancelled period
// =========================================================================

/// Integer division rounded toward zero, for `b > 0`.
pub open spec fn trunc_div(a: int, b: int) -> int {
    if a >= 0 { a / b } else { -((-a) / b) }
}

/// An integer brought into the `i64` range, as a saturating cast does.
pub open spec fn clamp_i64(x: int) -> i64 {
    if x < i64::MIN { i64::MIN } else if x > i64::MAX { i64::MAX } else { x as i64 }
}

/// The price a cancelled subscription is credited at: its own price when
/// known, else the default.
pub open spec fn credited_price(price: Option<i64>) -> int {
    match price {
        Some(p) => p as int,
        None => DEFAULT_CANCELLED_PRICE_CENTS as int,
    }
}

/// The credit left on a cancelled period: nothing once the period is over;
/// otherwise the share of the price that the remaining time is of the whole
/// period (at least one second), rounded toward zero.
pub open spec fn remaining_credit(start: int, end: int, now: int, price: int) -> int {
    if end > now {
        let remaining = end - now;
        let total = if end - start >= 1 { end - start } else { 1 };
        clamp_i64(trunc_div(remaining * price, total)) as int
    } else {
        0
    }
}

/// The credit left on the cancelled subscription, if any. The price is the
/// cancelled subscription's (`None` when it has none or it could not be
/// read, and then $29). The share is exact, rounded toward zero.
pub fn reactivation_credit(cancelled: Option<&CancelledSubscriptionInfo>, cancelled_price: Option<i64>, now: Timestamp) -> (r: i64)
    ensures
        cancelled is None ==> r == 0,
        cancelled matches Some(c) ==> r == remaining_credit(
            c.current_period_start@ as int,
            c.current_period_end@ as int,
            now@ as int,
            credited_price(cancelled_price),
        ),
{
    match cancelled {
        None => 0,
        Some(c) => {
            let end: i128 = c.current_period_end.unix() as i128;
            let start: i128 = c.current_period_start.unix() as i128;
            let n: i128 = now.unix() as i128;
            if end > n {
                let remaining: i128 = end - n;
                let total: i128 = if end - start >= 1 { end - start } else { 1 };
                let price: i128 = match cancelled_price {
                    Some(p) => p as i128,
                    None => DEFAULT_CANCELLED_PRICE_CENTS as i128,
                };
                assert(0 < remaining <= 0xffff_ffff_ffff_ffff);
                assert(-0x8000_0000_0000_0000 <= price <= 0x7fff_ffff_ffff_ffff);
                assert(-0x7fff_ffff_ffff_ffff_8000_0000_0000_0000 <= remaining * price
                    <= 0x7fff_ffff_ffff_fffe_8000_0000_0000_0001) by (nonlinear_arith)
                    requires
                        0 < remaining <= 0xffff_ffff_ffff_ffff,
                        -0x8000_0000_0000_0000 <= price <= 0x7fff_ffff_ffff_ffff,
                ;
                let product: i128 = remaining * price;
                let q: i128 = if product >= 0 { product / total } else { 0i128 - ((0i128 - product) / total) };
                if q < i64::MIN as i128 {
                    i64::MIN
                } else if q > i64::MAX as i128 {
                    i64::MAX
                } else {
                    q as i64
                }
            } else {
                0
            }
        },
    }
}

/// Outstanding overages must not exceed the credit: then the net credit is
/// what is left of the credit (never below zero); otherwise the organization
/// is sent to pay them first at `{app_base_url}/billing/overages`.
pub fn net_reactivation_credit(credit_cents: i64, overage_cents: i64, app_base_url: &str) -> (r: Result<i64, BillingError>)
    requires
        overage_cents > credit_cents || credit_cents - overage_cents <= i64::MAX,
    ensures
        overage_cents > credit_cents ==> (r matches Err(BillingError::OveragesExceedCredit { overage_cents: o, credit_cents: c, pay_first_url: u })
            && o == overage_cents && c == credit_cents && u@ == app_base_url@ + "/billing/overages"@),
        overage_cents <= credit_cents ==> r == Ok::<i64, BillingError>((credit_cents - overage_cents) as i64),
{
    if overage_cents > credit_cents {
        let mut url = app_base_url.to_owned();
        url.append("/billing/overages");
        return Err(BillingError::OveragesExceedCredit { overage_cents, credit_cents, pay_first_url: url });
    }
    Ok(credit_cents - overage_cents)
}

/// The price of the new subscription: the annual price for the intervals
/// `annual` and `yearly` in any case (its absence is
/// `InvalidTier("{tier} (annual pricing not configured)")`), else the
/// monthly price (its absence is `InvalidTier` with the tier). The interval
/// is lower-cased by ASCII rules; Unicode lower-casing gives the same
/// verdict, as no other character lowers into those two words.
pub fn reactivation_price_id(
    new_tier: &str,
    billing_interval: &str,
    annual: Option<&str>,
    monthly: Option<&str>,
) -> (r: Result<String, BillingError>)
    ensures
        (ascii_lower(billing_interval@) == "annual"@ || ascii_lower(billing_interval@) == "yearly"@) ==> match annual {
            Some(p) => r matches Ok(q) && q@ == p@,
            None => r matches Err(BillingError::InvalidTier(m)) && m@ == new_tier@ + " (annual pricing not configured)"@,
        },
        !(ascii_lower(billing_interval@) == "annual"@ || ascii_lower(billing_interval@) == "yearly"@) ==> match monthly {
            Some(p) => r matches Ok(q) && q@ == p@,
            None => r matches Err(BillingError::InvalidTier(m)) && m@ == new_tier@,
        },
{
    let lower = ascii_lowercase(billing_interval);
    if str_eq(lower.as_str(), "annual") || str_eq(lower.as_str(), "yearly") {
        match annual {
            Some(p) => Ok(p.to_owned()),
            None => {
                let mut m = new_tier.to_owned();
                m.append(" (annual pricing not configured)");
                Err(BillingError::InvalidTier(m))
            },
        }
    } else {
        match monthly {
            Some(p) => Ok(p.to_owned()),
            None => Err(BillingError::InvalidTier(new_tier.to_owned())),
        }
    }
}

// =========================================================================
// Trial days bought by the credit
// =========================================================================

/// Trial days a net credit buys on a new price: none when it does not cover
/// one period; otherwise 30 days per whole period it covers (as an `i32`,
/// wrapping as a cast does) plus the days of the remaining fraction of a
/// 30-day period, rounded down, at most 90.
pub open spec fn credit_trial_days(net: int, price: int) -> int {
    if net >= price {
        let full = net / price;
        let partial = (net % price) * 30 / price;
        let days = ((full * 30) as i32) as int + partial;
        if days < 90 { days } else { 90 }
    } else {
        0
    }
}

/// Whether the trial-day arithmetic stays in range: the months' days fit in
/// `i64` and their sum with the partial days fits in `i32`.
pub open spec fn trial_days_in_range(net: int, price: int) -> bool {
    net >= price ==> {
        let full = net / price;
        &&& full * 30 <= i64::MAX
        &&& ((full * 30) as i32) as int + (net % price) * 30 / price <= i32::MAX
    }
}

/// The trial days a net credit buys on the new subscription's price.
pub fn trial_days_from_credit(net_credit: i64, new_price_cents: i64) -> (r: i32)
    requires
        net_credit >= 0,
        new_price_cents > 0,
        trial_days_in_range(net_credit as int, new_price_cents as int),
    ensures
        r == credit_trial_days(net_credit as int, new_price_cents as int),
{
    if net_credit >= new_price_cents {
        let full: i64 = net_credit / new_price_cents;
        let extra: i64 = net_credit % new_price_cents;
        assert(0 <= extra < new_price_cents);
        let wide: i128 = (extra as i128) * 30;
        let partial: i128 = wide / (new_price_cents as i128);
        assert(0 <= partial < 30) by (nonlinear_arith)
            requires
                0 <= extra < new_price_cents,
                wide == extra * 30,
                partial as int == (wide as int) / (new_price_cents as int),
                new_price_cents > 0,
        {
        }
        let months: i64 = full * 30;
        let days: i32 = (months as i32) + (partial as i32);
        if days < MAX_CREDIT_TRIAL_DAYS { days } else { MAX_CREDIT_TRIAL_DAYS }
    } else {
        0
    }
}

/// The end of the credit's trial: the trial days from now, when there are
/// any. `None` also where that moment is beyond what `time` represents.
pub fn credit_trial_end(now: Timestamp, trial_days: i32) -> (r: Option<Timestamp>)
    ensures
        trial_days <= 0 ==> r is None,
        trial_days > 0 && valid_unix_timestamp((now@ + trial_days * 86400) as i64) && now@ + trial_days * 86400 <= i64::MAX
            ==> (r matches Some(t) && t@ == now@ + trial_days * 86400),
        r matches Some(t) ==> t@ == now@ + trial_days * 86400,
{
    if trial_days <= 0 {
        return None;
    }
    let n = now.unix();
    let add: i64 = (trial_days as i64) * 86400;
    if n > i64::MAX - add {
        return None;
    }
    Timestamp::from_unix(n + add)
}

// =========================================================================
// The new subscription
// =========================================================================

/// The metadata of the new subscription: the organization, the tier and the
/// reactivation mark, with the net credit applied and the overages deducted
/// when they are positive.
pub open spec fn reactivation_metadata_spec(org_id: u128, tier: Seq<char>, net: i64, overage: i64) -> Map<Seq<char>, Seq<char>> {
    let base = Map::<Seq<char>, Seq<char>>::empty().insert("org_id"@, uuid_hyphenated(org_id))
        .insert("tier"@, tier).insert("reactivation"@, "true"@);
    let with_credit = if net > 0 { base.insert("credit_applied_cents"@, int_text(net as int)) } else { base };
    if overage > 0 { with_credit.insert("overages_deducted_cents"@, int_text(overage as int)) } else { with_credit }
}

/// The metadata of the new subscription.
pub fn reactivation_metadata(org_id: u128, new_tier: &str, net_credit: i64, overage_cents: i64) -> (m: Metadata)
    ensures
        m@ == reactivation_metadata_spec(org_id, new_tier@, net_credit, overage_cents),
{
    let mut m = Metadata::new();
    m.insert("org_id".to_owned(), uuid_text(org_id));
    m.insert("tier".to_owned(), new_tier.to_owned());
    m.insert("reactivation".to_owned(), "true".to_owned());
    if net_credit > 0 {
        let mut t = String::new();
        push_int_text(&mut t, net_credit);
        m.insert("credit_applied_cents".to_owned(), t);
    }
    if overage_cents > 0 {
        let mut t = String::new();
        push_int_text(&mut t, overage_cents);
        m.insert("overages_deducted_cents".to_owned(), t);
    }
    m
}

/// How a reactivation proceeds once the trial days are known.
#[derive(Debug, Clone, Copy, PartialEq, Eq, Structural)]
pub enum ReactivationPath {
    /// The credit buys trial days: create the subscription with a trial
    WithTrial,
    /// A credit smaller than one period: go through checkout with a coupon
    Checkout,
    /// No credit: create the subscription as it is
    Plain,
}

/// The path of a reactivation: a trial when the credit buys days; checkout
/// when a positive credit is smaller than the new price; else plain.
pub fn reactivation_path(trial_days: i32, net_credit: i64, new_price_cents: i64) -> (r: ReactivationPath)
    ensures
        trial_days > 0 ==> r == ReactivationPath::WithTrial,
        trial_days <= 0 && net_credit > 0 && net_credit < new_price_cents ==> r == ReactivationPath::Checkout,
        trial_days <= 0 && !(net_credit > 0 && net_credit < new_price_cents) ==> r == ReactivationPath::Plain,
{
    if trial_days > 0 {
        ReactivationPath::WithTrial
    } else if net_credit > 0 && net_credit < new_price_cents {
        ReactivationPath::Checkout
    } else {
        ReactivationPath::Plain
    }
}

// =========================================================================
// The credit coupon
// =========================================================================

/// A coupon is made only for a credit of at least 50 cents.
pub fn check_coupon_amount(amount_cents: i64) -> (r: Result<(), BillingError>)
    ensures
        r is Ok <==> amount_cents >= MIN_COUPON_CENTS,
        r is Err ==> (r matches Err(BillingError::InvalidAmount(m)) && m@ == "Credit amount "@
            + int_text(amount_cents as int) + " cents is too small to create a coupon (minimum 50 cents)"@),
{
    if amount_cents < MIN_COUPON_CENTS {
        let mut m = "Credit amount ".to_owned();
        push_int_text(&mut m, amount_cents);
        m.append(" cents is too small to create a coupon (minimum 50 cents)");
        Err(BillingError::InvalidAmount(m))
    } else {
        Ok(())
    }
}

/// `s` preceded by zeros up to `width` characters.
pub open spec fn zero_pad(s: Seq<char>, width: nat) -> Seq<char> {
    if s.len() < width { Seq::new((width - s.len()) as nat, |i: int| '0') + s } else { s }
}

/// An integer written as `{:010}` writes it: zero-padded to ten characters,
/// the sign counted among them.
pub open spec fn padded10(x: int) -> Seq<char> {
    if x < 0 { seq!['-'] + zero_pad(nat_text((-x) as nat), 9) } else { zero_pad(nat_text(x as nat), 10) }
}

/// The ID of a reactivation coupon: `rx_`, the first eight hexadecimal
/// digits of the organization's ID, the time in seconds zero-padded to ten
/// characters, and the first eight digits of a random UUID.
pub open spec fn coupon_id_spec(org_id: u128, timestamp: i64, random: u128) -> Seq<char> {
    "rx_"@ + uuid_simple(org_id).subrange(0, 8) + "_"@ + padded10(timestamp as int) + "_"@
        + uuid_simple(random).subrange(0, 8)
}

/// Appends `n` zeros.
fn push_zeros(s: &mut String, n: usize)
    ensures
        final(s)@ == old(s)@ + Seq::new(n as nat, |i: int| '0'),
{
    let mut k: usize = 0;
    while k < n
        invariant
            k <= n,
            s@ == old(s)@ + Seq::new(k as nat, |i: int| '0'),
        decreases n - k,
    {
        push_char(s, '0');
        k = k + 1;
        assert(s@ =~= old(s)@ + Seq::new(k as nat, |i: int| '0'));
    }
}

/// Appends `n` zero-padded to `width` characters.
fn push_zero_padded(s: &mut String, n: u64, width: usize)
    ensures
        final(s)@ == old(s)@ + zero_pad(nat_text(n as nat), width as nat),
{
    let mut digits = String::new();
    push_nat_text(&mut digits, n);
    assert(digits@ == nat_text(n as nat));
    let len = digits.as_str().unicode_len();
    if len < width {
        push_zeros(s, width - len);
    }
    s.append(digits.as_str());
    assert(s@ =~= old(s)@ + zero_pad(nat_text(n as nat), width as nat));
}

/// The first eight characters of a 32-character text.
fn first_eight(t: &str) -> (r: String)
    requires
        t@.len() >= 8,
    ensures
        r@ == t@.subrange(0, 8),
{
    let mut r = String::new();
    let mut i: usize = 0;
    while i < 8
        invariant
            i <= 8,
            t@.len() >= 8,
            r@ == t@.subrange(0, i as int),
        decreases 8 - i,
    {
        push_char(&mut r, t.get_char(i));
        i = i + 1;
        assert(r@ =~= t@.subrange(0, i as int));
    }
    r
}

/// The ID of a reactivation coupon for an organization, a time and a random UUID.
pub fn coupon_id(org_id: u128, timestamp: i64, random: u128) -> (r: String)
    ensures
        r@ == coupon_id_spec(org_id, timestamp, random),
{
    let org = uuid_simple_text(org_id);
    let rnd = uuid_simple_text(random);
    proof {
        crate::ids::lemma_uuid_simple_len(org_id);
        crate::ids::lemma_uuid_simple_len(random);
    }
    let mut s = "rx_".to_owned();
    let o8 = first_eight(org.as_str());
    s.append(o8.as_str());
    s.append("_");
    if timestamp < 0 {
        push_char(&mut s, '-');
        let mag: u64 = (0i128 - (timestamp as i128)) as u64;
        push_zero_padded(&mut s, mag, 9);
    } else {
        push_zero_padded(&mut s, timestamp as u64, 10);
    }
    s.append("_");
    let r8 = first_eight(rnd.as_str());
    s.append(r8.as_str());
    assert(s@ =~= coupon_id_spec(org_id, timestamp, random));
    s
}

/// A random (version 4) UUID from `uuid::Uuid::new_v4`, as an integer.
/// Nothing is promised of its value: it is random.
#[verifier::external_body]
fn random_uuid() -> (r: u128) {
    uuid::Uuid::new_v4().as_u128()
}

/// A fresh coupon ID for an organization, from the current time and a
/// random UUID.
pub fn new_coupon_id(org_id: u128) -> (r: String)
    ensures
        exists|ts: i64, random: u128| r@ == coupon_id_spec(org_id, ts, random),
{
    let ts = chrono_now_seconds();
    let random = random_uuid();
    coupon_id(org_id, ts, random)
}

/// The name of a reactivation coupon.
pub fn coupon_name(org_id: u128) -> (r: String)
    ensures
        r@ == "Reactivation credit for org "@ + uuid_hyphenated(org_id),
{
    let mut s = "Reactivation credit for org ".to_owned();
    let id = uuid_text(org_id);
    s.append(id.as_str());
    s
}

/// What a partial credit answers: go through checkout. With a coupon, the
/// credit rides on it; without one (it could not be made), no credit is
/// carried and an admin settles it.
pub fn checkout_flow(
    coupon_id: Option<String>,
    net_credit: i64,
    new_tier: &str,
    billing_interval: &str,
    customer_id: String,
) -> (r: BillingError)
    ensures
        r matches BillingError::UseCheckoutFlow { checkout_url, credit_cents, coupon_id: c, tier, billing_interval: b, customer_id: cu }
            && checkout_url is None
            && credit_cents == (if coupon_id is Some { net_credit } else { 0 })
            && c == coupon_id && tier@ == new_tier@ && b@ == billing_interval@ && cu == customer_id,
{
    let credit_cents = if coupon_id.is_some() { net_credit } else { 0 };
    BillingError::UseCheckoutFlow {
        checkout_url: None,
        credit_cents,
        coupon_id,
        tier: new_tier.to_owned(),
        billing_interval: billing_interval.to_owned(),
        customer_id,
    }
}

// =========================================================================
// The result
// =========================================================================

/// The message of a reactivation.
pub open spec fn reactivation_message(trial_days: i32, credit: i64, overage: i64, net: i64) -> Seq<char> {
    if trial_days > 0 {
        "Subscription reactivated with "@ + int_text(trial_days as int) + " days credit applied ($"@
            + cents_text(credit as int) + " credit - $"@ + cents_text(overage as int) + " overages = $"@
            + cents_text(net as int) + " net)"@
    } else {
        "Subscription reactivated. $"@ + cents_text(overage as int) + " in overages were deducted from your $"@
            + cents_text(credit as int) + " credit."@
    }
}

/// The options under which a reactivation sets the tier.
pub fn reactivation_tier_options() -> (o: TierChangeOptions)
    ensures
        crate::subscriptions::plain_options(o, Some(crate::subscriptions::TierChangeSource::UserUpgrade), None),
        o.reason matches Some(r) && r@ == "Subscription reactivated"@,
        o.downgrade_timing is None,
{
    crate::subscriptions::upgrade_tier_options(Some("Subscription reactivated"))
}

/// The result of a reactivation.
pub fn reactivation_result(
    subscription_id: String,
    customer_id: String,
    new_tier: &str,
    billing_interval: &str,
    credit_cents: i64,
    overage_cents: i64,
    net_credit: i64,
    trial_days: i32,
    current_period_end: i64,
    now: Timestamp,
    trial_end: Option<Timestamp>,
) -> (r: ReactivationResult)
    ensures
        r.stripe_subscription_id == subscription_id,
        r.stripe_customer_id == customer_id,
        r.tier@ == new_tier@,
        r.billing_interval@ == billing_interval@,
        r.credit_applied_cents == net_credit,
        r.extra_trial_days == trial_days,
        r.overages_deducted_cents == overage_cents,
        r.current_period_end@ == (if valid_unix_timestamp(current_period_end) { current_period_end } else { now@ }),
        r.trial_end == trial_end,
        r.message@ == reactivation_message(trial_days, credit_cents, overage_cents, net_credit),
{
    let mut message = String::new();
    if trial_days > 0 {
        message.append("Subscription reactivated with ");
        push_int_text(&mut message, trial_days as i64);
        message.append(" days credit applied ($");
        push_cents_text(&mut message, credit_cents);
        message.append(" credit - $");
        push_cents_text(&mut message, overage_cents);
        message.append(" overages = $");
        push_cents_text(&mut message, net_credit);
        message.append(" net)");
    } else {
        message.append("Subscription reactivated. $");
        push_cents_text(&mut message, overage_cents);
        message.append(" in overages were deducted from your $");
        push_cents_text(&mut message, credit_cents);
        message.append(" credit.");
    }
    assert(message@ =~= reactivation_message(trial_days, credit_cents, overage_cents, net_credit));
    ReactivationResult {
        stripe_subscription_id: subscription_id,
        stripe_customer_id: customer_id,
        tier: new_tier.to_owned(),
        billing_interval: billing_interval.to_owned(),
        credit_applied_cents: net_credit,
        extra_trial_days: trial_days,
        overages_deducted_cents: overage_cents,
        current_period_end: Timestamp::from_unix_or(current_period_end, now),
        trial_end,
        message,
    }
}

// =========================================================================
// Laws
// =========================================================================

/// The credit left on a running period is a share of the price: between
/// zero and the price, for a non-negative price.
pub proof fn lemma_credit_at_most_price(start: int, end: int, now: int, price: int)
    requires
        start <= now,
        0 <= price <= i64::MAX,
    ensures
        0 <= remaining_credit(start, end, now, price) <= price,
{
    if end > now {
        let remaining = end - now;
        let total = if end - start >= 1 { end - start } else { 1 };
        assert(0 < remaining <= total);
        assert(0 <= remaining * price <= total * price) by (nonlinear_arith)
            requires
                0 < remaining <= total,
                0 <= price,
        {
        }
        assert(0 <= (remaining * price) / total <= price) by (nonlinear_arith)
            requires
                0 <= remaining * price <= total * price,
                total > 0,
        {
        }
    }
}

/// A credit buys no trial unless it covers a whole period of the new price,
/// and never more than 90 days (while the months' days fit an `i32`).
pub proof fn lemma_trial_days_bounded(net: int, price: int)
    requires
        net >= 0,
        price > 0,
        (net / price) * 30 <= i32::MAX,
    ensures
        0 <= credit_trial_days(net, price) <= 90,
        credit_trial_days(net, price) == 0 <== net < price,
        net >= price ==> credit_trial_days(net, price) >= 30,
{
    if net >= price {
        let full = net / price;
        assert(full >= 1) by (nonlinear_arith)
            requires
                net >= price,
                price > 0,
                full == net / price,
        {
        }
        assert(0 <= full * 30 <= i32::MAX);
        assert(((full * 30) as i32) as int == full * 30);
        assert(0 <= (net % price) * 30 / price) by (nonlinear_arith)
            requires
                price > 0,
        {
        }
    }
}

/// Zero padding leaves text at least as wide as asked, and unchanged when
/// already wide enough.
proof fn lemma_zero_pad_len(s: Seq<char>, width: nat)
    ensures
        zero_pad(s, width).len() == (if s.len() < width { width } else { s.len() }),
{
}

/// Ten to the power `k`.
pub open spec fn pow10(k: nat) -> nat
    decreases k,
{
    if k == 0 { 1 } else { 10 * pow10((k - 1) as nat) }
}

/// The decimal text of a number below `10^k` has at most `k` digits.
proof fn lemma_nat_text_len(n: nat, k: nat)
    requires
        k >= 1,
        n < pow10(k),
    ensures
        nat_text(n).len() <= k,
    decreases k,
{
    if n >= 10 {
        assert(k >= 2) by {
            if k == 1 {
                assert(pow10(1) == 10 * pow10(0));
            }
        }
        assert(n / 10 < pow10((k - 1) as nat));
        lemma_nat_text_len(n / 10, (k - 1) as nat);
    }
}

/// Coupon IDs are 31 characters (within Stripe's limit of 40) for every
/// time from the epoch until the year 2286.
pub proof fn lemma_coupon_id_length(org_id: u128, timestamp: i64, random: u128)
    requires
        0 <= timestamp < 10_000_000_000,
    ensures
        coupon_id_spec(org_id, timestamp, random).len() == 31,
{
    crate::ids::lemma_uuid_simple_len(org_id);
    crate::ids::lemma_uuid_simple_len(random);
    assert(pow10(10) == 10_000_000_000) by {
        reveal_with_fuel(pow10, 11);
    }
    lemma_nat_text_len(timestamp as nat, 10);
    lemma_zero_pad_len(nat_text(timestamp as nat), 10);
    reveal_strlit("rx_");
    reveal_strlit("_");
}

} // verus!
