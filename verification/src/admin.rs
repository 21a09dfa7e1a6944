//! Tier changes made from the admin panel: checking the request, routing it
//! to an upgrade, a downgrade now or at the period end, or a move to free;
//! choosing the price; and what each route reports.

use vstd::prelude::*;
use crate::error::BillingError;
use crate::ids::{uuid_hyphenated, uuid_text};
use crate::metadata::Metadata;
use crate::subscriptions::{
    ScheduledDowngrade, SubscriptionStatus, TierChangeOptions, TierChangeSource, is_known_tier, is_valid_tier,
    lemma_only_downgrades_wait, plain_options, schedules_change, tier_order, tier_rank,
};
use crate::text::{cents_text, int_text, nat_text, push_cents_text, push_int_text, str_eq};
use crate::timeutil::{Timestamp, datetime_display, valid_unix_timestamp, whole_days, whole_days_of};

verus! {

/// Parameters for admin-initiated tier changes
#[derive(Debug, Clone)]
pub struct AdminTierChangeParams {
    /// New tier to change to (free, pro, team, enterprise)
    pub new_tier: String,
    /// Optional trial period in days (0-730)
    pub trial_days: Option<u32>,
    /// Reason for the tier change (for audit logging)
    pub reason: String,
    /// Skip payment method validation (allows tier change without payment method)
    pub skip_payment_validation: bool,
    /// Billing interval: "monthly" or "annual" (default: monthly)
    pub billing_interval: Option<String>,
    /// Custom price in cents for Enterprise tier
    pub custom_price_cents: Option<i64>,
    /// Scheduled start date for subscription
    pub subscription_start_date: Option<Timestamp>,
    /// Payment method: "immediate", "invoice", or "trial"
    pub payment_method: Option<String>,
    /// Admin user ID who initiated the tier change (for tracking scheduled downgrades)
    pub admin_user_id: Option<u128>,
    /// For downgrades: "scheduled" (at period end, default) or "immediate" (now with prorated credit/refund)
    pub downgrade_timing: Option<String>,
    /// For immediate downgrades: "refund" (money back to payment method) or "credit" (Stripe account credit)
    /// Defaults to "credit" for backwards compatibility
    pub refund_type: Option<String>,
}

/// Result of an admin-initiated tier change
#[derive(Debug, Clone)]
pub struct AdminTierChangeResult {
    /// Stripe subscription ID (None if downgraded to Free)
    pub stripe_subscription_id: Option<String>,
    /// Stripe customer ID
    pub stripe_customer_id: String,
    /// The new tier
    pub tier: String,
    /// Trial end date if a trial was applied
    pub trial_end: Option<Timestamp>,
    /// Stripe invoice ID if invoice payment method was used
    pub stripe_invoice_id: Option<String>,
    /// Invoice status if invoice was created
    pub invoice_status: Option<String>,
    /// Subscription start date if scheduled
    pub subscription_start_date: Option<Timestamp>,
    /// Billing interval ("monthly" or "annual")
    pub billing_interval: String,
    /// Custom Stripe price ID for Enterprise tier
    pub custom_price_id: Option<String>,
    /// Whether the tier change was scheduled for period end (vs immediate)
    pub scheduled: bool,
    /// Effective date if scheduled
    pub scheduled_effective_date: Option<Timestamp>,
    /// Whether a refund/credit was issued for this tier change
    pub refund_issued: bool,
    /// Amount refunded/credited in cents (if any)
    pub refund_amount_cents: Option<i64>,
    /// Type of refund: "refund" (money back) or "credit" (Stripe account credit)
    pub refund_type: Option<String>,
    /// Message explaining what happened
    pub message: String,
}

/// The longest trial an admin may grant, in days (Stripe's limit).
pub const MAX_TRIAL_DAYS: u32 = 730;

/// An optional string's characters.
pub open spec fn opt_view(o: Option<String>) -> Option<Seq<char>> {
    match o {
        Some(s) => Some(s@),
        None => None,
    }
}

/// The text of an optional string, or `default`.
pub open spec fn text_or(o: Option<String>, default: Seq<char>) -> Seq<char> {
    match o {
        Some(s) => s@,
        None => default,
    }
}

/// Whether an optional string holds exactly `lit`.
pub open spec fn is_text(o: Option<String>, lit: Seq<char>) -> bool {
    o matches Some(s) && s@ == lit
}

/// Whether an optional string holds exactly `lit`.
fn opt_is(o: &Option<String>, lit: &str) -> (r: bool)
    ensures
        r == is_text(*o, lit@),
{
    match o {
        Some(s) => str_eq(s.as_str(), lit),
        None => false,
    }
}

/// The text of an optional string, or `default`.
fn opt_or(o: &Option<String>, default: &str) -> (r: String)
    ensures
        r@ == text_or(*o, default@),
{
    match o {
        Some(s) => s.clone(),
        None => default.to_owned(),
    }
}

// =========================================================================
// Checking and routing the request
// =========================================================================

/// The message of a tier name the admin panel refuses.
pub open spec fn admin_invalid_tier_message(t: Seq<char>) -> Seq<char> {
    "Invalid tier '"@ + t + "'. Must be one of: free, pro, team, enterprise"@
}

/// The message of a trial longer than two years.
pub open spec fn trial_too_long_message(days: u32) -> Seq<char> {
    "Trial period must be between 0 and 730 days, got "@ + nat_text(days as nat)
}

/// An admin tier change must name one of the four tiers and grant at most
/// 730 trial days; both refusals are `InvalidTier`, the tier checked first.
pub fn validate_admin_change(params: &AdminTierChangeParams) -> (r: Result<(), BillingError>)
    ensures
        !is_known_tier(params.new_tier@) ==> (r matches Err(BillingError::InvalidTier(m))
            && m@ == admin_invalid_tier_message(params.new_tier@)),
        is_known_tier(params.new_tier@) ==> match params.trial_days {
            Some(d) => if d > MAX_TRIAL_DAYS {
                r matches Err(BillingError::InvalidTier(m)) && m@ == trial_too_long_message(d)
            } else {
                r is Ok
            },
            None => r is Ok,
        },
{
    if !is_valid_tier(params.new_tier.as_str()) {
        let mut m = "Invalid tier '".to_owned();
        m.append(params.new_tier.as_str());
        m.append("'. Must be one of: free, pro, team, enterprise");
        return Err(BillingError::InvalidTier(m));
    }
    if let Some(d) = params.trial_days {
        if d > MAX_TRIAL_DAYS {
            let mut m = "Trial period must be between 0 and 730 days, got ".to_owned();
            push_int_text(&mut m, d as i64);
            proof {
                assert(int_text(d as int) == nat_text(d as nat));
            }
            return Err(BillingError::InvalidTier(m));
        }
    }
    Ok(())
}

/// Where an admin tier change goes.
#[derive(Debug, Clone, Copy, PartialEq, Eq, Structural)]
pub enum AdminRoute {
    /// A downgrade to free, handled on its own
    FreeTierDowngrade,
    /// A downgrade made now, with prorated credit
    ImmediateDowngrade,
    /// A downgrade recorded for the end of the billing period
    ScheduledDowngrade,
    /// A move to free that is no downgrade
    SetFree,
    /// An upgrade, or a change to the same tier
    Apply,
}

/// The route of an admin tier change from the organization's current tier
/// (free when the organization has none on record), tiers compared exactly:
/// a downgrade to free; a downgrade with `immediate` timing; any other
/// downgrade is scheduled; otherwise free is set, and any other tier applied.
pub open spec fn admin_route_of(current: Seq<char>, new_tier: Seq<char>, timing: Option<Seq<char>>) -> AdminRoute {
    if tier_rank(new_tier) < tier_rank(current) {
        if new_tier == "free"@ {
            AdminRoute::FreeTierDowngrade
        } else if timing == Some("immediate"@) {
            AdminRoute::ImmediateDowngrade
        } else {
            AdminRoute::ScheduledDowngrade
        }
    } else if new_tier == "free"@ {
        AdminRoute::SetFree
    } else {
        AdminRoute::Apply
    }
}

/// Routes an admin tier change.
pub fn admin_route(current_tier: Option<&str>, params: &AdminTierChangeParams) -> (r: AdminRoute)
    ensures
        r == admin_route_of(
            match current_tier { Some(t) => t@, None => "free"@ },
            params.new_tier@,
            opt_view(params.downgrade_timing),
        ),
{
    let current = match current_tier {
        Some(t) => t,
        None => "free",
    };
    let new_tier = params.new_tier.as_str();
    if tier_order(new_tier) < tier_order(current) {
        if str_eq(new_tier, "free") {
            AdminRoute::FreeTierDowngrade
        } else if opt_is(&params.downgrade_timing, "immediate") {
            AdminRoute::ImmediateDowngrade
        } else {
            AdminRoute::ScheduledDowngrade
        }
    } else if str_eq(new_tier, "free") {
        AdminRoute::SetFree
    } else {
        AdminRoute::Apply
    }
}

/// Whether an admin change is refused for want of a payment method: the
/// customer has none, no trial is granted, validation is not skipped, and
/// payment is neither by invoice nor by trial.
pub open spec fn needs_payment_method(has_payment_method: bool, params: AdminTierChangeParams) -> bool {
    !has_payment_method && params.trial_days is None && !params.skip_payment_validation
        && !is_text(params.payment_method, "invoice"@) && !is_text(params.payment_method, "trial"@)
}

/// Whether a Stripe customer has a payment method on file: a default source
/// or a default payment method in its invoice settings.
pub fn customer_has_payment_method(default_source: Option<String>, default_payment_method: Option<String>) -> (r: bool)
    ensures
        r == (default_source is Some || default_payment_method is Some),
{
    default_source.is_some() || default_payment_method.is_some()
}

/// Whether an admin change moves the organization's existing subscription
/// to the new price (rather than creating one): it has a subscription that
/// is not cancelled.
pub fn admin_reuses_subscription(existing_status: Option<SubscriptionStatus>) -> (r: bool)
    ensures
        r == (existing_status matches Some(st) && st != SubscriptionStatus::Canceled),
{
    match existing_status {
        Some(st) => !matches!(st, SubscriptionStatus::Canceled),
        None => false,
    }
}

/// Refuses an admin change that needs a payment method the customer lacks.
pub fn check_payment_method(has_payment_method: bool, params: &AdminTierChangeParams) -> (r: Result<(), BillingError>)
    ensures
        needs_payment_method(has_payment_method, *params) ==> r == Err::<(), BillingError>(BillingError::PaymentMethodRequired),
        !needs_payment_method(has_payment_method, *params) ==> r is Ok,
{
    let requires_validation = !opt_is(&params.payment_method, "invoice") && !opt_is(&params.payment_method, "trial");
    if !has_payment_method && params.trial_days.is_none() && !params.skip_payment_validation && requires_validation {
        Err(BillingError::PaymentMethodRequired)
    } else {
        Ok(())
    }
}

// =========================================================================
// Prices
// =========================================================================

/// The billing interval of a change: the one asked for, else `monthly`.
pub fn billing_interval_of(params: &AdminTierChangeParams) -> (r: String)
    ensures
        r@ == text_or(params.billing_interval, "monthly"@),
{
    opt_or(&params.billing_interval, "monthly")
}

/// How the price of an admin upgrade is found.
#[derive(Debug, Clone, PartialEq, Eq)]
pub enum AdminPricePlan {
    /// A custom enterprise price of this amount, created with this interval argument
    Custom { amount_cents: i64, interval: String },
    /// The configured price of the tier, annual or monthly
    Configured { annual: bool },
}

/// The price plan of an admin upgrade: an enterprise change with a custom
/// amount creates its own price, passing `year` for the `annual` interval
/// and `month` otherwise; anything else uses the configured price of the
/// interval.
pub fn admin_price_plan(params: &AdminTierChangeParams) -> (r: AdminPricePlan)
    ensures
        params.new_tier@ == "enterprise"@ && params.custom_price_cents is Some ==> (r matches AdminPricePlan::Custom { amount_cents, interval }
            && amount_cents == params.custom_price_cents->0
            && interval@ == (if text_or(params.billing_interval, "monthly"@) == "annual"@ { "year"@ } else { "month"@ })),
        !(params.new_tier@ == "enterprise"@ && params.custom_price_cents is Some) ==> r == (AdminPricePlan::Configured {
            annual: text_or(params.billing_interval, "monthly"@) == "annual"@,
        }),
{
    let interval = billing_interval_of(params);
    let annual = str_eq(interval.as_str(), "annual");
    match params.custom_price_cents {
        Some(amount_cents) => {
            if str_eq(params.new_tier.as_str(), "enterprise") {
                let i = if annual { "year".to_owned() } else { "month".to_owned() };
                return AdminPricePlan::Custom { amount_cents, interval: i };
            }
        },
        None => {},
    }
    AdminPricePlan::Configured { annual }
}

/// The recurring interval of a custom enterprise price.
#[derive(Debug, Clone, Copy, PartialEq, Eq, Structural)]
pub enum PriceInterval {
    Month,
    Year,
}

/// The recurring interval a custom enterprise price is created with: yearly
/// for the argument `year` (or the billing interval `annual`), monthly for
/// anything else.
pub open spec fn custom_interval(arg: Seq<char>) -> PriceInterval {
    if arg == "year"@ || arg == "annual"@ { PriceInterval::Year } else { PriceInterval::Month }
}

/// The recurring interval of a custom enterprise price for an interval argument.
pub fn custom_price_interval(arg: &str) -> (r: PriceInterval)
    ensures
        r == custom_interval(arg@),
{
    if str_eq(arg, "year") || str_eq(arg, "annual") { PriceInterval::Year } else { PriceInterval::Month }
}

/// The metadata of a custom enterprise price.
pub fn custom_price_metadata(org_id: u128) -> (m: Metadata)
    ensures
        m@ == Map::<Seq<char>, Seq<char>>::empty().insert("org_id"@, uuid_hyphenated(org_id))
            .insert("custom_price"@, "true"@).insert("tier"@, "enterprise"@),
{
    let mut m = Metadata::new();
    m.insert("org_id".to_owned(), uuid_text(org_id));
    m.insert("custom_price".to_owned(), "true".to_owned());
    m.insert("tier".to_owned(), "enterprise".to_owned());
    m
}

/// The custom enterprise price of an admin upgrade (which passes `year` or
/// `month`) recurs yearly exactly when the billing interval is `annual`.
pub proof fn lemma_custom_price_follows_interval(params: AdminTierChangeParams, interval: Seq<char>)
    requires
        interval == (if text_or(params.billing_interval, "monthly"@) == "annual"@ { "year"@ } else { "month"@ }),
    ensures
        custom_interval(interval) == (if text_or(params.billing_interval, "monthly"@) == "annual"@ {
            PriceInterval::Year
        } else {
            PriceInterval::Month
        }),
{
    reveal_strlit("annual");
    reveal_strlit("year");
    reveal_strlit("month");
    assert("year"@[0] != "annual"@[0]);
    assert("month"@[0] != "annual"@[0]);
    assert("month"@[0] != "year"@[0]);
}

/// The configured price of an admin upgrade: the annual price (its absence
/// is `InvalidTier("{tier} annual pricing not configured")`) or the monthly
/// price (its absence is `InvalidTier` with the tier).
pub fn admin_configured_price_id(new_tier: &str, annual: bool, configured: Option<&str>) -> (r: Result<String, BillingError>)
    ensures
        configured matches Some(p) ==> (r matches Ok(q) && q@ == p@),
        configured is None && annual ==> (r matches Err(BillingError::InvalidTier(m))
            && m@ == new_tier@ + " annual pricing not configured"@),
        configured is None && !annual ==> (r matches Err(BillingError::InvalidTier(m)) && m@ == new_tier@),
{
    match configured {
        Some(p) => Ok(p.to_owned()),
        None => {
            if annual {
                let mut m = new_tier.to_owned();
                m.append(" annual pricing not configured");
                Err(BillingError::InvalidTier(m))
            } else {
                Err(BillingError::InvalidTier(new_tier.to_owned()))
            }
        },
    }
}

// =========================================================================
// Applying an upgrade
// =========================================================================

/// Days until an invoice is due when payment is by invoice; `None` when the
/// subscription charges automatically.
pub fn invoice_due_days(payment_method: &Option<String>) -> (r: Option<u32>)
    ensures
        is_text(*payment_method, "invoice"@) ==> r == Some(30u32),
        !is_text(*payment_method, "invoice"@) ==> r is None,
{
    if opt_is(payment_method, "invoice") { Some(30) } else { None }
}

/// The metadata of a subscription an admin creates: the organization, the
/// tier, the admin mark and the reason, and `admin_trial` when a trial is
/// granted.
pub fn admin_subscription_metadata(org_id: u128, params: &AdminTierChangeParams) -> (m: Metadata)
    ensures
        params.trial_days is None ==> m@ == Map::<Seq<char>, Seq<char>>::empty()
            .insert("org_id"@, uuid_hyphenated(org_id)).insert("tier"@, params.new_tier@)
            .insert("admin_change"@, "true"@).insert("reason"@, params.reason@),
        params.trial_days is Some ==> m@ == Map::<Seq<char>, Seq<char>>::empty()
            .insert("org_id"@, uuid_hyphenated(org_id)).insert("tier"@, params.new_tier@)
            .insert("admin_change"@, "true"@).insert("reason"@, params.reason@)
            .insert("admin_trial"@, "true"@),
{
    let mut m = Metadata::new();
    m.insert("org_id".to_owned(), uuid_text(org_id));
    m.insert("tier".to_owned(), params.new_tier.clone());
    m.insert("admin_change".to_owned(), "true".to_owned());
    m.insert("reason".to_owned(), params.reason.clone());
    if params.trial_days.is_some() {
        m.insert("admin_trial".to_owned(), "true".to_owned());
    }
    m
}

/// Trial days that delay a subscription to its start date: the whole days
/// from now to the start, when there are any, as `u32`.
pub open spec fn start_trial_days(start: Option<Timestamp>, now: Timestamp) -> Option<u32> {
    match start {
        Some(s) => if whole_days(s@ - now@) > 0 { Some(whole_days(s@ - now@) as u32) } else { None },
        None => None,
    }
}

/// The trial days that hold a subscription back until its start date.
pub fn start_date_trial_days(start: Option<Timestamp>, now: Timestamp) -> (r: Option<u32>)
    ensures
        r == start_trial_days(start, now),
{
    match start {
        Some(s) => {
            let s_secs = s.unix();
            let n_secs = now.unix();
            let diff: i128 = (s_secs as i128) - (n_secs as i128);
            let days: i128 = if diff >= 0 { diff / 86400 } else { 0i128 - ((0i128 - diff) / 86400) };
            assert(days == whole_days(s@ - now@));
            if days > 0 {
                Some(days as u32)
            } else {
                None
            }
        },
        None => None,
    }
}

/// The invoice of an upgrade paid by invoice: the subscription's latest
/// invoice, reported as a draft.
pub fn admin_invoice_info(payment_method: &Option<String>, latest_invoice: Option<String>) -> (r: (Option<String>, Option<String>))
    ensures
        is_text(*payment_method, "invoice"@) && latest_invoice is Some ==> r.0 == latest_invoice
            && (r.1 matches Some(s) && s@ == "draft"@),
        !(is_text(*payment_method, "invoice"@) && latest_invoice is Some) ==> r.0 is None && r.1 is None,
{
    if opt_is(payment_method, "invoice") {
        match latest_invoice {
            Some(id) => (Some(id), Some("draft".to_owned())),
            None => (None, None),
        }
    } else {
        (None, None)
    }
}

/// The result of an applied admin upgrade: the subscription and customer,
/// the new tier, the trial end (each Stripe trial end read as a date, else
/// now), the invoice, the start date and interval asked for, and the custom
/// price if one was created.
pub fn admin_upgrade_result(
    subscription_id: String,
    customer_id: String,
    params: &AdminTierChangeParams,
    trial_end: Option<i64>,
    now: Timestamp,
    invoice: (Option<String>, Option<String>),
    custom_price_id: Option<String>,
) -> (r: AdminTierChangeResult)
    ensures
        r.stripe_subscription_id == Some(subscription_id),
        r.stripe_customer_id == customer_id,
        r.tier == params.new_tier,
        trial_end is None ==> r.trial_end is None,
        trial_end matches Some(t) ==> (r.trial_end matches Some(x)
            && x@ == (if valid_unix_timestamp(t) { t } else { now@ })),
        r.stripe_invoice_id == invoice.0,
        r.invoice_status == invoice.1,
        r.subscription_start_date == params.subscription_start_date,
        r.billing_interval@ == text_or(params.billing_interval, "monthly"@),
        r.custom_price_id == custom_price_id,
        !r.scheduled,
        r.scheduled_effective_date is None,
        !r.refund_issued,
        r.refund_amount_cents is None,
        r.refund_type is None,
        r.message@ == "Tier changed to "@ + params.new_tier@ + " immediately with proration"@,
{
    let mut message = "Tier changed to ".to_owned();
    message.append(params.new_tier.as_str());
    message.append(" immediately with proration");
    AdminTierChangeResult {
        stripe_subscription_id: Some(subscription_id),
        stripe_customer_id: customer_id,
        tier: params.new_tier.clone(),
        trial_end: match trial_end {
            Some(t) => Some(Timestamp::from_unix_or(t, now)),
            None => None,
        },
        stripe_invoice_id: invoice.0,
        invoice_status: invoice.1,
        subscription_start_date: params.subscription_start_date,
        billing_interval: billing_interval_of(params),
        custom_price_id,
        scheduled: false,
        scheduled_effective_date: None,
        refund_issued: false,
        refund_amount_cents: None,
        refund_type: None,
        message,
    }
}

// =========================================================================
// Moving to free without a downgrade
// =========================================================================

/// An admin result with nothing scheduled, refunded or invoiced.
pub open spec fn plain_result(r: AdminTierChangeResult) -> bool {
    &&& r.trial_end is None
    &&& r.stripe_invoice_id is None
    &&& r.invoice_status is None
    &&& r.subscription_start_date is None
    &&& r.custom_price_id is None
    &&& !r.scheduled
    &&& r.scheduled_effective_date is None
    &&& !r.refund_issued
    &&& r.refund_amount_cents is None
    &&& r.refund_type is None
}

/// A result on the free tier, billed monthly, with nothing else done.
fn free_result(subscription_id: Option<String>, customer_id: String, message: String) -> (r: AdminTierChangeResult)
    ensures
        r.stripe_subscription_id == subscription_id,
        r.stripe_customer_id == customer_id,
        r.tier@ == "free"@,
        r.billing_interval@ == "monthly"@,
        plain_result(r),
        r.message == message,
{
    AdminTierChangeResult {
        stripe_subscription_id: subscription_id,
        stripe_customer_id: customer_id,
        tier: "free".to_owned(),
        trial_end: None,
        stripe_invoice_id: None,
        invoice_status: None,
        subscription_start_date: None,
        billing_interval: "monthly".to_owned(),
        custom_price_id: None,
        scheduled: false,
        scheduled_effective_date: None,
        refund_issued: false,
        refund_amount_cents: None,
        refund_type: None,
        message,
    }
}

/// The result of setting free when the organization's subscription was
/// cancelled for it.
pub fn cancelled_to_free_result(subscription_id: String, customer_id: String) -> (r: AdminTierChangeResult)
    ensures
        r.stripe_subscription_id == Some(subscription_id),
        r.stripe_customer_id == customer_id,
        r.tier@ == "free"@,
        r.billing_interval@ == "monthly"@,
        plain_result(r),
        r.message@ == "Subscription cancelled, downgraded to Free tier immediately"@,
{
    free_result(Some(subscription_id), customer_id,
        "Subscription cancelled, downgraded to Free tier immediately".to_owned())
}

/// The customer ID reported when no subscription exists: the organization's
/// Stripe customer, else `no_customer`.
pub open spec fn customer_or_none(customer_id: Option<String>) -> Seq<char> {
    text_or(customer_id, "no_customer"@)
}

/// The result of setting free when the organization had no subscription.
pub fn set_free_result(customer_id: Option<String>) -> (r: AdminTierChangeResult)
    ensures
        r.stripe_subscription_id is None,
        r.stripe_customer_id@ == customer_or_none(customer_id),
        r.tier@ == "free"@,
        r.billing_interval@ == "monthly"@,
        plain_result(r),
        r.message@ == "Organization set to Free tier immediately"@,
{
    let c = opt_or(&customer_id, "no_customer");
    free_result(None, c, "Organization set to Free tier immediately".to_owned())
}

/// The result of a downgrade to free when the organization had no
/// subscription.
pub fn no_subscription_free_result(customer_id: Option<String>) -> (r: AdminTierChangeResult)
    ensures
        r.stripe_subscription_id is None,
        r.stripe_customer_id@ == customer_or_none(customer_id),
        r.tier@ == "free"@,
        r.billing_interval@ == "monthly"@,
        plain_result(r),
        r.message@ == "Organization set to Free tier (no subscription existed)"@,
{
    let c = opt_or(&customer_id, "no_customer");
    free_result(None, c, "Organization set to Free tier (no subscription existed)".to_owned())
}

/// The options under which an admin move to free changes the tier: from the
/// admin panel, by the admin, for the reason given, at once. The tier change
/// never schedules it, whatever the current tier.
pub fn admin_free_options(params: &AdminTierChangeParams) -> (o: TierChangeOptions)
    ensures
        plain_options(o, Some(TierChangeSource::AdminPanel), params.admin_user_id),
        o.reason == Some(params.reason),
        o.downgrade_timing matches Some(t) && t@ == "immediate"@,
        forall|current: Seq<char>| !schedules_change(current, "free"@, Some(o.downgrade_timing->0@)),
{
    let mut o = TierChangeOptions::default();
    o.source = Some(TierChangeSource::AdminPanel);
    o.changed_by = params.admin_user_id;
    o.reason = Some(params.reason.clone());
    o.downgrade_timing = Some("immediate".to_owned());
    proof {
        assert forall|current: Seq<char>| !schedules_change(current, "free"@, Some(o.downgrade_timing->0@)) by {
            lemma_only_downgrades_wait(current, "free"@, None);
        }
    }
    o
}

// =========================================================================
// Downgrades at the period end
// =========================================================================

/// The result of an admin downgrade recorded for the period end: the
/// organization stays on its current tier until then.
pub fn admin_scheduled_result(
    subscription_id: String,
    customer_id: String,
    params: &AdminTierChangeParams,
    scheduled: &ScheduledDowngrade,
) -> (r: AdminTierChangeResult)
    ensures
        r.stripe_subscription_id == Some(subscription_id),
        r.stripe_customer_id == customer_id,
        r.tier == scheduled.current_tier,
        r.trial_end is None,
        r.stripe_invoice_id is None,
        r.invoice_status is None,
        r.subscription_start_date is None,
        r.billing_interval@ == text_or(params.billing_interval, "monthly"@),
        r.custom_price_id is None,
        r.scheduled,
        r.scheduled_effective_date == Some(scheduled.effective_date),
        !r.refund_issued,
        r.refund_amount_cents is None,
        r.refund_type is None,
        r.message@ == "Downgrade to "@ + params.new_tier@ + " scheduled for end of billing period ("@
            + datetime_display(scheduled.effective_date@) + ")"@,
{
    let mut message = "Downgrade to ".to_owned();
    message.append(params.new_tier.as_str());
    message.append(" scheduled for end of billing period (");
    let d = scheduled.effective_date.display();
    message.append(d.as_str());
    message.append(")");
    AdminTierChangeResult {
        stripe_subscription_id: Some(subscription_id),
        stripe_customer_id: customer_id,
        tier: scheduled.current_tier.clone(),
        trial_end: None,
        stripe_invoice_id: None,
        invoice_status: None,
        subscription_start_date: None,
        billing_interval: billing_interval_of(params),
        custom_price_id: None,
        scheduled: true,
        scheduled_effective_date: Some(scheduled.effective_date),
        refund_issued: false,
        refund_amount_cents: None,
        refund_type: None,
        message,
    }
}

// =========================================================================
// Downgrades made now
// =========================================================================

/// How the price of an immediate admin downgrade is found.
#[derive(Debug, Clone, PartialEq, Eq)]
pub enum DowngradePricePlan {
    /// A custom enterprise price of this amount, created with the billing
    /// interval as its interval argument
    Custom { amount_cents: i64, interval: String },
    /// The configured annual price
    Annual,
    /// The configured monthly price
    Monthly,
}

/// The price plan of an immediate downgrade: a custom enterprise price for
/// an enterprise target with a custom amount (created with the billing
/// interval itself, so `annual` makes it yearly), else the configured
/// annual or monthly price.
pub fn downgrade_price_plan(params: &AdminTierChangeParams) -> (r: DowngradePricePlan)
    ensures
        params.new_tier@ == "enterprise"@ && params.custom_price_cents is Some ==> (r matches DowngradePricePlan::Custom { amount_cents, interval }
            && amount_cents == params.custom_price_cents->0
            && interval@ == text_or(params.billing_interval, "monthly"@)),
        !(params.new_tier@ == "enterprise"@ && params.custom_price_cents is Some) ==> r == (if text_or(params.billing_interval, "monthly"@) == "annual"@ {
            DowngradePricePlan::Annual
        } else {
            DowngradePricePlan::Monthly
        }),
{
    let interval = billing_interval_of(params);
    if str_eq(params.new_tier.as_str(), "enterprise") {
        if let Some(amount_cents) = params.custom_price_cents {
            return DowngradePricePlan::Custom { amount_cents, interval };
        }
    }
    if str_eq(interval.as_str(), "annual") {
        DowngradePricePlan::Annual
    } else {
        DowngradePricePlan::Monthly
    }
}

/// The configured price of an immediate downgrade: the annual price (its
/// absence is `InvalidTier("No annual price for tier: {tier}")`) or the
/// monthly price (its absence is `InvalidTier` with the tier).
pub fn downgrade_configured_price_id(new_tier: &str, annual: bool, configured: Option<&str>) -> (r: Result<String, BillingError>)
    ensures
        configured matches Some(p) ==> (r matches Ok(q) && q@ == p@),
        configured is None && annual ==> (r matches Err(BillingError::InvalidTier(m))
            && m@ == "No annual price for tier: "@ + new_tier@),
        configured is None && !annual ==> (r matches Err(BillingError::InvalidTier(m)) && m@ == new_tier@),
{
    match configured {
        Some(p) => Ok(p.to_owned()),
        None => {
            if annual {
                let mut m = "No annual price for tier: ".to_owned();
                m.append(new_tier);
                Err(BillingError::InvalidTier(m))
            } else {
                Err(BillingError::InvalidTier(new_tier.to_owned()))
            }
        },
    }
}

/// The metadata an immediate downgrade sets on the subscription.
pub fn immediate_downgrade_metadata(params: &AdminTierChangeParams) -> (m: Metadata)
    ensures
        m@ == Map::<Seq<char>, Seq<char>>::empty().insert("tier"@, params.new_tier@)
            .insert("admin_immediate_downgrade"@, "true"@).insert("downgrade_reason"@, params.reason@),
{
    let mut m = Metadata::new();
    m.insert("tier".to_owned(), params.new_tier.clone());
    m.insert("admin_immediate_downgrade".to_owned(), "true".to_owned());
    m.insert("downgrade_reason".to_owned(), params.reason.clone());
    m
}

/// The options under which an immediate downgrade changes the tier: from the
/// admin panel, by the admin, for the reason given, at once, with the refund
/// type asked for (credit by default).
pub fn immediate_downgrade_options(params: &AdminTierChangeParams) -> (o: TierChangeOptions)
    ensures
        o.source == Some(TierChangeSource::AdminPanel),
        o.changed_by == params.admin_user_id,
        o.reason == Some(params.reason),
        o.downgrade_timing matches Some(t) && t@ == "immediate"@,
        o.refund_type matches Some(t) && t@ == text_or(params.refund_type, "credit"@),
        !o.skip_payment_validation,
        o.custom_price_cents is None,
        o.billing_interval is None,
        o.trial_days is None,
        o.scheduled_date is None,
{
    let mut o = admin_free_options(params);
    o.refund_type = Some(opt_or(&params.refund_type, "credit"));
    o
}

/// Whether an immediate downgrade lets Stripe's prorations give the unused
/// time back as credit: yes unless a refund to the payment method was asked
/// for, which then carries the unused time instead.
pub fn downgrade_prorates(params: &AdminTierChangeParams) -> (r: bool)
    ensures
        r == !is_text(params.refund_type, "refund"@),
{
    !opt_is(&params.refund_type, "refund")
}

/// The tier a subscription's metadata names, `unknown` when it names none.
pub fn recorded_tier(metadata_tier: Option<String>) -> (r: String)
    ensures
        r@ == text_or(metadata_tier, "unknown"@),
{
    opt_or(&metadata_tier, "unknown")
}

/// What an immediate downgrade gives back for the unused time: the refund
/// type asked for, credit by default.
pub open spec fn give_back_kind(params: AdminTierChangeParams) -> Seq<char> {
    text_or(params.refund_type, "credit"@)
}

/// The note on what an immediate downgrade gave back, in its message.
pub open spec fn immediate_note(outcome: GiveBackOutcome, kind: Seq<char>) -> Seq<char> {
    match outcome {
        GiveBackOutcome::Refunded(a) => " ($"@ + cents_text(a as int) + " "@ + kind + ")"@,
        GiveBackOutcome::Credited(a) => " ($"@ + cents_text(a as int) + " "@ + kind + ")"@,
        GiveBackOutcome::NothingDue => " (no prorated amount due)"@,
        GiveBackOutcome::RefundFailed => " ("@ + kind + " failed)"@,
        _ => Seq::empty(),
    }
}

/// The result of an immediate downgrade: the new tier at once, the unused
/// time given back as the refund type asked for (credit by default), issued
/// exactly when a positive amount was refunded or credited, and for an
/// enterprise target the price used.
pub fn immediate_downgrade_result(
    subscription_id: String,
    customer_id: String,
    params: &AdminTierChangeParams,
    price_id: String,
    give_back: GiveBackOutcome,
) -> (r: AdminTierChangeResult)
    ensures
        r.stripe_subscription_id == Some(subscription_id),
        r.stripe_customer_id == customer_id,
        r.tier == params.new_tier,
        r.trial_end is None,
        r.stripe_invoice_id is None,
        r.invoice_status is None,
        r.subscription_start_date is None,
        r.billing_interval@ == text_or(params.billing_interval, "monthly"@),
        r.custom_price_id == (if params.new_tier@ == "enterprise"@ { Some(price_id) } else { None }),
        !r.scheduled,
        r.scheduled_effective_date is None,
        (r.refund_issued, r.refund_amount_cents) == give_back_report(give_back),
        r.refund_issued == (r.refund_amount_cents matches Some(c) && c > 0),
        r.refund_type matches Some(t) && t@ == give_back_kind(*params),
        r.message@ == "Immediate downgrade to "@ + params.new_tier@ + " completed with prorated "@
            + give_back_kind(*params) + " for unused time"@ + immediate_note(give_back, give_back_kind(*params)),
{
    let kind = opt_or(&params.refund_type, "credit");
    let mut message = "Immediate downgrade to ".to_owned();
    message.append(params.new_tier.as_str());
    message.append(" completed with prorated ");
    message.append(kind.as_str());
    message.append(" for unused time");
    match give_back {
        GiveBackOutcome::Refunded(a) | GiveBackOutcome::Credited(a) => {
            message.append(" ($");
            push_cents_text(&mut message, a);
            message.append(" ");
            message.append(kind.as_str());
            message.append(")");
        },
        GiveBackOutcome::NothingDue => {
            message.append(" (no prorated amount due)");
        },
        GiveBackOutcome::RefundFailed => {
            message.append(" (");
            message.append(kind.as_str());
            message.append(" failed)");
        },
        _ => {},
    }
    let (refund_issued, refund_amount_cents) = give_back_summary(give_back);
    let enterprise = str_eq(params.new_tier.as_str(), "enterprise");
    AdminTierChangeResult {
        stripe_subscription_id: Some(subscription_id),
        stripe_customer_id: customer_id,
        tier: params.new_tier.clone(),
        trial_end: None,
        stripe_invoice_id: None,
        invoice_status: None,
        subscription_start_date: None,
        billing_interval: billing_interval_of(params),
        custom_price_id: if enterprise { Some(price_id) } else { None },
        scheduled: false,
        scheduled_effective_date: None,
        refund_issued,
        refund_amount_cents,
        refund_type: Some(kind),
        message,
    }
}

// =========================================================================
// Downgrades to free
// =========================================================================

/// The metadata a scheduled downgrade to free sets: the mark, the admin (an
/// empty text when unknown) and the reason.
pub fn scheduled_free_metadata(params: &AdminTierChangeParams) -> (m: Metadata)
    ensures
        m@ == Map::<Seq<char>, Seq<char>>::empty().insert("scheduled_free_downgrade"@, "true"@)
            .insert("admin_user_id"@, match params.admin_user_id {
                Some(id) => uuid_hyphenated(id),
                None => Seq::empty(),
            }).insert("reason"@, params.reason@),
{
    let mut m = Metadata::new();
    m.insert("scheduled_free_downgrade".to_owned(), "true".to_owned());
    let admin = match params.admin_user_id {
        Some(id) => uuid_text(id),
        None => String::new(),
    };
    m.insert("admin_user_id".to_owned(), admin);
    m.insert("reason".to_owned(), params.reason.clone());
    m
}

/// The end of a subscription's period as a date, when Stripe gives one
/// (a positive timestamp; read as now when no representable moment).
pub fn period_end_date(current_period_end: i64, now: Timestamp) -> (r: Option<Timestamp>)
    ensures
        current_period_end <= 0 ==> r is None,
        current_period_end > 0 ==> (r matches Some(t)
            && t@ == (if valid_unix_timestamp(current_period_end) { current_period_end } else { now@ })),
{
    if current_period_end > 0 {
        Some(Timestamp::from_unix_or(current_period_end, now))
    } else {
        None
    }
}

/// The date note of a scheduled downgrade to free.
pub open spec fn date_note(period_end: Option<Timestamp>) -> Seq<char> {
    match period_end {
        Some(d) => " ("@ + datetime_display(d@) + ")"@,
        None => Seq::empty(),
    }
}

/// The result of a downgrade to free scheduled for the period end.
pub fn scheduled_free_result(
    subscription_id: String,
    customer_id: String,
    current_tier: &str,
    period_end: Option<Timestamp>,
) -> (r: AdminTierChangeResult)
    ensures
        r.stripe_subscription_id == Some(subscription_id),
        r.stripe_customer_id == customer_id,
        r.tier@ == current_tier@,
        r.trial_end is None,
        r.stripe_invoice_id is None,
        r.invoice_status is None,
        r.subscription_start_date is None,
        r.billing_interval@ == "monthly"@,
        r.custom_price_id is None,
        r.scheduled,
        r.scheduled_effective_date == period_end,
        !r.refund_issued,
        r.refund_amount_cents is None,
        r.refund_type is None,
        r.message@ == "Downgrade to Free tier scheduled for end of billing period"@ + date_note(period_end),
{
    let mut message = "Downgrade to Free tier scheduled for end of billing period".to_owned();
    match period_end {
        Some(d) => {
            message.append(" (");
            let t = d.display();
            message.append(t.as_str());
            message.append(")");
        },
        None => {},
    }
    AdminTierChangeResult {
        stripe_subscription_id: Some(subscription_id),
        stripe_customer_id: customer_id,
        tier: current_tier.to_owned(),
        trial_end: None,
        stripe_invoice_id: None,
        invoice_status: None,
        subscription_start_date: None,
        billing_interval: "monthly".to_owned(),
        custom_price_id: None,
        scheduled: true,
        scheduled_effective_date: period_end,
        refund_issued: false,
        refund_amount_cents: None,
        refund_type: None,
        message,
    }
}

/// The options under which an immediate downgrade to free changes the tier:
/// from the admin panel, by the admin, for the reason and refund type given,
/// at once.
pub fn free_downgrade_options(params: &AdminTierChangeParams) -> (o: TierChangeOptions)
    ensures
        o.source == Some(TierChangeSource::AdminPanel),
        o.changed_by == params.admin_user_id,
        o.reason == Some(params.reason),
        o.refund_type == params.refund_type,
        o.downgrade_timing matches Some(t) && t@ == "immediate"@,
        !o.skip_payment_validation,
        o.custom_price_cents is None,
        o.billing_interval is None,
        o.trial_days is None,
        o.scheduled_date is None,
{
    let mut o = admin_free_options(params);
    o.refund_type = params.refund_type.clone();
    o.downgrade_timing = Some("immediate".to_owned());
    o
}

/// How a downgrade to free of an organization with a subscription goes.
#[derive(Debug, Clone, Copy, PartialEq, Eq, Structural)]
pub enum FreeDowngradePath {
    /// The subscription ends at the period end (it stops renewing)
    AtPeriodEnd,
    /// The subscription is cancelled now, with money given back if asked
    Immediate,
    /// The subscription was cancelled already: the organization is set to free now
    AlreadyCancelled,
}

/// The path of a downgrade to free: at the period end when no timing or
/// `scheduled` was asked for (the period end is the default); otherwise at
/// once, where a subscription that is cancelled already has nothing left to
/// end.
pub open spec fn free_downgrade_path_of(timing: Option<Seq<char>>, status: SubscriptionStatus) -> FreeDowngradePath {
    if timing is None || timing == Some("scheduled"@) {
        FreeDowngradePath::AtPeriodEnd
    } else if status == SubscriptionStatus::Canceled {
        FreeDowngradePath::AlreadyCancelled
    } else {
        FreeDowngradePath::Immediate
    }
}

/// Chooses how a downgrade to free goes, from the timing asked for and the
/// status of the organization's subscription.
pub fn free_downgrade_path(params: &AdminTierChangeParams, status: SubscriptionStatus) -> (r: FreeDowngradePath)
    ensures
        r == free_downgrade_path_of(opt_view(params.downgrade_timing), status),
{
    if params.downgrade_timing.is_none() || opt_is(&params.downgrade_timing, "scheduled") {
        FreeDowngradePath::AtPeriodEnd
    } else if matches!(status, SubscriptionStatus::Canceled) {
        FreeDowngradePath::AlreadyCancelled
    } else {
        FreeDowngradePath::Immediate
    }
}

/// Whether an immediate downgrade to free looks for money to give back: a
/// refund type was asked for and the subscription was still running. Then
/// the admin must be known (`Ok(Some(admin))`, else an internal error);
/// otherwise nothing is given back (`Ok(None)`).
pub fn free_downgrade_refund_request(params: &AdminTierChangeParams, already_canceled: bool) -> (r: Result<Option<u128>, BillingError>)
    ensures
        !(params.refund_type is Some && !already_canceled) ==> r == Ok::<Option<u128>, BillingError>(None),
        params.refund_type is Some && !already_canceled && params.admin_user_id is Some
            ==> r == Ok::<Option<u128>, BillingError>(params.admin_user_id),
        params.refund_type is Some && !already_canceled && params.admin_user_id is None
            ==> (r matches Err(BillingError::Internal(m)) && m@ == "Admin user ID required for refund"@),
{
    if params.refund_type.is_some() && !already_canceled {
        match params.admin_user_id {
            Some(a) => Ok(Some(a)),
            None => Err(BillingError::Internal("Admin user ID required for refund".to_owned())),
        }
    } else {
        Ok(None)
    }
}

/// What is given back for the unused time of a cancelled subscription.
#[derive(Debug, Clone, Copy, PartialEq, Eq, Structural)]
pub enum GiveBack {
    /// Nothing is due
    NothingDue,
    /// Money goes back to the payment method
    Refund,
    /// The amount is recorded as account credit
    Credit,
}

/// What a positive prorated amount becomes: a refund when `refund` was
/// asked for, else credit (the default); nothing when no amount is due.
pub open spec fn give_back_of(refund_type: Option<Seq<char>>, prorated: int) -> GiveBack {
    if prorated > 0 {
        if refund_type == Some("refund"@) { GiveBack::Refund } else { GiveBack::Credit }
    } else {
        GiveBack::NothingDue
    }
}

/// Chooses what is given back for a prorated amount.
pub fn give_back_for(refund_type: &Option<String>, prorated: i64) -> (r: GiveBack)
    ensures
        r == give_back_of(opt_view(*refund_type), prorated as int),
{
    if prorated > 0 {
        if opt_is(refund_type, "refund") { GiveBack::Refund } else { GiveBack::Credit }
    } else {
        GiveBack::NothingDue
    }
}

/// How the giving back of a downgrade to free ended.
#[derive(Debug, Clone, Copy, PartialEq, Eq, Structural)]
pub enum GiveBackOutcome {
    /// Nothing was asked for, or the subscription was already cancelled
    NotRequested,
    /// No refundable charge was found
    ChargeUnavailable,
    /// The prorated amount was not positive
    NothingDue,
    /// A refund of this amount was issued
    Refunded(i64),
    /// Issuing the refund failed
    RefundFailed,
    /// This amount was given as credit (whether or not recording it succeeded)
    Credited(i64),
}

/// How giving back a prorated amount ends: nothing when no amount is due;
/// credit of the amount; or, when a refund was asked for, a refund of the
/// amount if issuing it succeeded (`refund_succeeded`), else a failed refund.
pub open spec fn give_back_outcome_of(refund_type: Option<Seq<char>>, prorated: i64, refund_succeeded: bool) -> GiveBackOutcome {
    match give_back_of(refund_type, prorated as int) {
        GiveBack::NothingDue => GiveBackOutcome::NothingDue,
        GiveBack::Credit => GiveBackOutcome::Credited(prorated),
        GiveBack::Refund => if refund_succeeded {
            GiveBackOutcome::Refunded(prorated)
        } else {
            GiveBackOutcome::RefundFailed
        },
    }
}

/// The outcome of giving back a prorated amount, once the refund (if one
/// was due) was attempted. A refund or credit always carries the positive
/// prorated amount.
pub fn give_back_outcome(refund_type: &Option<String>, prorated: i64, refund_succeeded: bool) -> (r: GiveBackOutcome)
    ensures
        r == give_back_outcome_of(opt_view(*refund_type), prorated, refund_succeeded),
        r matches GiveBackOutcome::Refunded(a) ==> a == prorated && a > 0,
        r matches GiveBackOutcome::Credited(a) ==> a == prorated && a > 0,
{
    match give_back_for(refund_type, prorated) {
        GiveBack::NothingDue => GiveBackOutcome::NothingDue,
        GiveBack::Credit => GiveBackOutcome::Credited(prorated),
        GiveBack::Refund => if refund_succeeded {
            GiveBackOutcome::Refunded(prorated)
        } else {
            GiveBackOutcome::RefundFailed
        },
    }
}

/// Whether something was given back, and how much is reported: a refund or
/// credit counts as issued only for a positive amount.
pub open spec fn give_back_report(o: GiveBackOutcome) -> (bool, Option<i64>) {
    match o {
        GiveBackOutcome::Refunded(a) => (a > 0, Some(a)),
        GiveBackOutcome::Credited(a) => (a > 0, Some(a)),
        GiveBackOutcome::NothingDue => (false, Some(0)),
        _ => (false, None),
    }
}

/// Reports how the giving back ended.
pub fn give_back_summary(o: GiveBackOutcome) -> (r: (bool, Option<i64>))
    ensures
        r == give_back_report(o),
        r.0 ==> (r.1 matches Some(a) && a > 0),
{
    match o {
        GiveBackOutcome::Refunded(a) => (a > 0, Some(a)),
        GiveBackOutcome::Credited(a) => (a > 0, Some(a)),
        GiveBackOutcome::NothingDue => (false, Some(0)),
        _ => (false, None),
    }
}

/// The note on what was given back in a downgrade's message.
pub open spec fn give_back_note(issued: bool, amount: Option<i64>, refund_type: Option<String>) -> Seq<char> {
    if issued && amount is Some {
        " ($"@ + cents_text(amount->0 as int) + " "@ + text_or(refund_type, "credit"@) + " issued)"@
    } else if !issued && amount == Some(0i64) {
        " (no prorated amount due)"@
    } else {
        match refund_type {
            Some(t) => " ("@ + t@ + " requested)"@,
            None => Seq::empty(),
        }
    }
}

/// The result of an immediate downgrade to free.
pub fn free_downgrade_result(
    subscription_id: String,
    customer_id: String,
    params: &AdminTierChangeParams,
    already_canceled: bool,
    give_back: GiveBackOutcome,
) -> (r: AdminTierChangeResult)
    ensures
        r.stripe_subscription_id == Some(subscription_id),
        r.stripe_customer_id == customer_id,
        r.tier@ == "free"@,
        r.trial_end is None,
        r.stripe_invoice_id is None,
        r.invoice_status is None,
        r.subscription_start_date is None,
        r.billing_interval@ == "monthly"@,
        r.custom_price_id is None,
        !r.scheduled,
        r.scheduled_effective_date is None,
        (r.refund_issued, r.refund_amount_cents) == give_back_report(
            if already_canceled || params.refund_type is None { GiveBackOutcome::NotRequested } else { give_back },
        ),
        r.refund_issued ==> (r.refund_amount_cents matches Some(a) && a > 0),
        already_canceled || params.refund_type is None ==> !r.refund_issued && r.refund_amount_cents is None,
        r.refund_type == params.refund_type,
        already_canceled ==> r.message@ == "Subscription was already canceled, organization set to Free tier"@,
        !already_canceled ==> r.message@ == "Subscription cancelled, downgraded to Free tier immediately"@
            + give_back_note(r.refund_issued, r.refund_amount_cents, params.refund_type),
{
    let reported = if already_canceled || params.refund_type.is_none() { GiveBackOutcome::NotRequested } else { give_back };
    let (refund_issued, refund_amount_cents) = give_back_summary(reported);
    let message = if already_canceled {
        "Subscription was already canceled, organization set to Free tier".to_owned()
    } else {
        let mut m = "Subscription cancelled, downgraded to Free tier immediately".to_owned();
        if refund_issued && refund_amount_cents.is_some() {
            let a = match refund_amount_cents {
                Some(a) => a,
                None => 0,
            };
            m.append(" ($");
            push_cents_text(&mut m, a);
            m.append(" ");
            let t = opt_or(&params.refund_type, "credit");
            m.append(t.as_str());
            m.append(" issued)");
        } else if !refund_issued && refund_amount_cents == Some(0i64) {
            m.append(" (no prorated amount due)");
        } else {
            match &params.refund_type {
                Some(t) => {
                    m.append(" (");
                    m.append(t.as_str());
                    m.append(" requested)");
                },
                None => {},
            }
        }
        m
    };
    AdminTierChangeResult {
        stripe_subscription_id: Some(subscription_id),
        stripe_customer_id: customer_id,
        tier: "free".to_owned(),
        trial_end: None,
        stripe_invoice_id: None,
        invoice_status: None,
        subscription_start_date: None,
        billing_interval: "monthly".to_owned(),
        custom_price_id: None,
        scheduled: false,
        scheduled_effective_date: None,
        refund_issued,
        refund_amount_cents,
        refund_type: params.refund_type.clone(),
        message,
    }
}

} // verus!
