//! Subscription rules: tier names and their order, the sources of tier
//! changes, and the decisions taken when a tier changes, is scheduled,
//! reactivated or previewed.

use vstd::prelude::*;
use vstd::string::*;
use crate::error::BillingError;
use crate::ids::{uuid_hyphenated, uuid_text};
use crate::metadata::Metadata;
use crate::timeutil::{CHRONO_TIMESTAMP_BOUND, SECONDS_PER_DAY, Timestamp, chrono_now_seconds, datetime_display, valid_unix_timestamp};
use crate::text::{
    ascii_lower, ascii_lower_char, chars_of, contains_seq, contains_text, int_text, push_char,
    push_int_text, str_eq,
};

verus! {

// =========================================================================
// Tier names
// =========================================================================

/// Rank of a tier name: free < pro < team < enterprise; any other name
/// ranks with free.
pub open spec fn tier_rank(t: Seq<char>) -> u8 {
    if t == "free"@ {
        0
    } else if t == "pro"@ {
        1
    } else if t == "team"@ {
        2
    } else if t == "enterprise"@ {
        3
    } else {
        0
    }
}

/// Whether a name is one of the four tiers.
pub open spec fn is_known_tier(t: Seq<char>) -> bool {
    t == "free"@ || t == "pro"@ || t == "team"@ || t == "enterprise"@
}

/// Whether moving from `from` to `to` lowers the tier, names compared
/// without regard to case.
pub open spec fn is_downgrade(from: Seq<char>, to: Seq<char>) -> bool {
    tier_rank(ascii_lower(to)) < tier_rank(ascii_lower(from))
}

/// The rank of a tier name (exact match): free 0, pro 1, team 2,
/// enterprise 3, anything else 0.
pub fn tier_order(t: &str) -> (r: u8)
    ensures
        r == tier_rank(t@),
{
    if str_eq(t, "free") {
        0
    } else if str_eq(t, "pro") {
        1
    } else if str_eq(t, "team") {
        2
    } else if str_eq(t, "enterprise") {
        3
    } else {
        0
    }
}

/// Whether a name is one of free, pro, team, enterprise.
pub fn is_valid_tier(t: &str) -> (r: bool)
    ensures
        r == is_known_tier(t@),
{
    str_eq(t, "free") || str_eq(t, "pro") || str_eq(t, "team") || str_eq(t, "enterprise")
}

/// ASCII lower-casing of a string.
pub fn ascii_lowercase(s: &str) -> (r: String)
    ensures
        r@ == ascii_lower(s@),
{
    let v = chars_of(s);
    let mut out = String::new();
    let mut i: usize = 0;
    while i < v.len()
        invariant
            i <= v.len(),
            v@ == s@,
            out@ == ascii_lower(s@).subrange(0, i as int),
        decreases v.len() - i,
    {
        let c = v[i];
        let l = if 'A' <= c && c <= 'Z' {
            let code: u8 = ((c as u32) + 32) as u8;
            code as char
        } else {
            c
        };
        assert(l == ascii_lower_char(c));
        push_char(&mut out, l);
        i = i + 1;
        assert(out@ =~= ascii_lower(s@).subrange(0, i as int));
    }
    assert(ascii_lower(s@).subrange(0, v.len() as int) =~= ascii_lower(s@));
    out
}

/// Whether moving from `from` to `to` is a downgrade. Names are lower-cased
/// first; `str::to_lowercase` and ASCII lower-casing agree on whether a name
/// becomes free, pro, team or enterprise, since no other character lowers
/// into the letters of those words.
pub fn is_tier_downgrade(from: &str, to: &str) -> (r: bool)
    ensures
        r == is_downgrade(from@, to@),
{
    let f = ascii_lowercase(from);
    let t = ascii_lowercase(to);
    tier_order(t.as_str()) < tier_order(f.as_str())
}

/// The four tier names are different strings.
proof fn lemma_tier_names_distinct()
    ensures
        "free"@ != "pro"@,
        "free"@ != "team"@,
        "free"@ != "enterprise"@,
        "pro"@ != "team"@,
        "pro"@ != "enterprise"@,
        "team"@ != "enterprise"@,
{
    reveal_strlit("free");
    reveal_strlit("pro");
    reveal_strlit("team");
    reveal_strlit("enterprise");
    assert("free"@[0] == 'f');
    assert("pro"@[0] == 'p');
    assert("team"@[0] == 't');
    assert("enterprise"@[0] == 'e');
}

/// The tier order is strict along free, pro, team, enterprise, and an
/// unknown name ranks with free.
pub proof fn lemma_tier_order_chain(other: Seq<char>)
    ensures
        tier_rank("free"@) == 0,
        tier_rank("free"@) < tier_rank("pro"@),
        tier_rank("pro"@) < tier_rank("team"@),
        tier_rank("team"@) < tier_rank("enterprise"@),
        !is_known_tier(other) ==> tier_rank(other) == 0,
{
    lemma_tier_names_distinct();
}

/// A downgrade one way is never a downgrade the other way, no tier is a
/// downgrade from itself, and two downgrades in a row are a downgrade.
pub proof fn lemma_downgrade_is_strict_order(a: Seq<char>, b: Seq<char>, c: Seq<char>)
    ensures
        is_downgrade(a, b) ==> !is_downgrade(b, a),
        !is_downgrade(a, a),
        is_downgrade(a, b) && is_downgrade(b, c) ==> is_downgrade(a, c),
{
}

/// Days a tier keeps its MCP test history: free 7, starter 30, pro 90,
/// every other tier 365.
pub open spec fn retention_days(tier: Seq<char>) -> u32 {
    if tier == "free"@ {
        7
    } else if tier == "starter"@ {
        30
    } else if tier == "pro"@ {
        90
    } else {
        365
    }
}

/// How many days of MCP test history an organization on `tier` keeps.
pub fn test_history_retention_days(tier: &str) -> (r: u32)
    ensures
        r == retention_days(tier@),
{
    if str_eq(tier, "free") {
        7
    } else if str_eq(tier, "starter") {
        30
    } else if str_eq(tier, "pro") {
        90
    } else {
        365
    }
}

// =========================================================================
// Tier change sources
// =========================================================================

/// Source of a tier change operation
/// Used for audit logging and determining behavior (e.g., whether to sync to Stripe)
#[derive(Debug, Clone, Copy, PartialEq, Eq, Structural)]
pub enum TierChangeSource {
    /// User initiated upgrade via checkout
    UserUpgrade,
    /// User scheduled downgrade
    UserDowngrade,
    /// Admin changed tier directly via admin panel
    AdminPanel,
    /// Stripe webhook confirmed payment (should NOT change tier, only payment_status)
    StripeWebhook,
    /// System automated change (e.g., trial expiry)
    System,
}

/// The name under which a source is recorded.
pub open spec fn source_label(s: TierChangeSource) -> Seq<char> {
    match s {
        TierChangeSource::UserUpgrade => "user_upgrade"@,
        TierChangeSource::UserDowngrade => "user_downgrade"@,
        TierChangeSource::AdminPanel => "admin_panel"@,
        TierChangeSource::StripeWebhook => "stripe_webhook"@,
        TierChangeSource::System => "system"@,
    }
}

impl TierChangeSource {
    pub fn as_str(&self) -> (r: &'static str)
        ensures
            r@ == source_label(*self),
    {
        match self {
            TierChangeSource::UserUpgrade => "user_upgrade",
            TierChangeSource::UserDowngrade => "user_downgrade",
            TierChangeSource::AdminPanel => "admin_panel",
            TierChangeSource::StripeWebhook => "stripe_webhook",
            TierChangeSource::System => "system",
        }
    }
}

/// Each source is recorded under a name of its own.
pub proof fn lemma_source_labels_distinct(a: TierChangeSource, b: TierChangeSource)
    ensures
        source_label(a) == source_label(b) ==> a == b,
{
    reveal_strlit("user_upgrade");
    reveal_strlit("user_downgrade");
    reveal_strlit("admin_panel");
    reveal_strlit("stripe_webhook");
    reveal_strlit("system");
    assert("user_upgrade"@[5] == 'u');
    assert("user_downgrade"@[5] == 'd');
    assert("admin_panel"@[0] == 'a');
    assert("stripe_webhook"@[1] == 't');
    assert("system"@[1] == 'y');
    assert("user_upgrade"@[0] == 'u');
    assert("user_downgrade"@[0] == 'u');
    assert("stripe_webhook"@[0] == 's');
    assert("system"@[0] == 's');
}

// =========================================================================
// Tiers and plans
// =========================================================================

/// The subscription tiers.
#[derive(Debug, Clone, Copy, PartialEq, Eq, Structural)]
pub enum SubscriptionTier {
    Free,
    Pro,
    Team,
    Enterprise,
}

/// Subscription plan configuration
#[derive(Debug, Clone)]
pub struct Plan {
    pub tier: SubscriptionTier,
    pub stripe_price_id: String,
    pub monthly_requests: u64,
    pub max_mcps: u32,
    pub max_users: u32,
    pub max_api_keys: u32,
}

impl Plan {
    /// Free tier: 5 MCPs, 5 API keys, 1K calls/month, 1 team member
    pub fn free() -> (p: Self)
        ensures
            p.tier == SubscriptionTier::Free,
            p.stripe_price_id@ == Seq::<char>::empty(),
            p.monthly_requests == 1000,
            p.max_mcps == 5,
            p.max_users == 1,
            p.max_api_keys == 5,
    {
        Plan {
            tier: SubscriptionTier::Free,
            stripe_price_id: String::new(),
            monthly_requests: 1000,
            max_mcps: 5,
            max_users: 1,
            max_api_keys: 5,
        }
    }

    /// Pro tier: 20 MCPs, 20 API keys, 50K calls/month, 5 team members
    pub fn pro(price_id: &str) -> (p: Self)
        ensures
            p.tier == SubscriptionTier::Pro,
            p.stripe_price_id@ == price_id@,
            p.monthly_requests == 50000,
            p.max_mcps == 20,
            p.max_users == 5,
            p.max_api_keys == 20,
    {
        Plan {
            tier: SubscriptionTier::Pro,
            stripe_price_id: price_id.to_owned(),
            monthly_requests: 50000,
            max_mcps: 20,
            max_users: 5,
            max_api_keys: 20,
        }
    }

    /// Team tier: 50 MCPs, 50 API keys, 250K calls/month, unlimited team members
    pub fn team(price_id: &str) -> (p: Self)
        ensures
            p.tier == SubscriptionTier::Team,
            p.stripe_price_id@ == price_id@,
            p.monthly_requests == 250000,
            p.max_mcps == 50,
            p.max_users == u32::MAX,
            p.max_api_keys == 50,
    {
        Plan {
            tier: SubscriptionTier::Team,
            stripe_price_id: price_id.to_owned(),
            monthly_requests: 250000,
            max_mcps: 50,
            max_users: u32::MAX,
            max_api_keys: 50,
        }
    }

    /// Enterprise tier: Unlimited everything
    pub fn enterprise(price_id: &str) -> (p: Self)
        ensures
            p.tier == SubscriptionTier::Enterprise,
            p.stripe_price_id@ == price_id@,
            p.monthly_requests == u64::MAX,
            p.max_mcps == u32::MAX,
            p.max_users == u32::MAX,
            p.max_api_keys == u32::MAX,
    {
        Plan {
            tier: SubscriptionTier::Enterprise,
            stripe_price_id: price_id.to_owned(),
            monthly_requests: u64::MAX,
            max_mcps: u32::MAX,
            max_users: u32::MAX,
            max_api_keys: u32::MAX,
        }
    }
}

// =========================================================================
// Tier change options and results
// =========================================================================

/// Options for tier change operations
/// This struct consolidates all possible options from admin panel, user actions, and webhooks
#[derive(Debug, Clone)]
pub struct TierChangeOptions {
    /// Source of the tier change
    pub source: Option<TierChangeSource>,
    /// User who initiated the change (for audit)
    pub changed_by: Option<u128>,
    /// Reason for the tier change (for audit logging)
    pub reason: Option<String>,
    /// Skip payment method validation (allows tier change without payment method)
    pub skip_payment_validation: bool,
    /// Custom price in cents for Enterprise tier
    pub custom_price_cents: Option<i64>,
    /// Billing interval: "monthly" or "annual"
    pub billing_interval: Option<String>,
    /// Apply trial period in days
    pub trial_days: Option<i32>,
    /// Schedule for future
    pub scheduled_date: Option<Timestamp>,
    /// Downgrade timing: "immediate" or "end_of_period"
    pub downgrade_timing: Option<String>,
    /// For immediate downgrades: "refund" or "credit"
    pub refund_type: Option<String>,
}

/// Options that set nothing but what the arguments give.
pub open spec fn plain_options(
    o: TierChangeOptions,
    source: Option<TierChangeSource>,
    changed_by: Option<u128>,
) -> bool {
    &&& o.source == source
    &&& o.changed_by == changed_by
    &&& !o.skip_payment_validation
    &&& o.custom_price_cents is None
    &&& o.billing_interval is None
    &&& o.trial_days is None
    &&& o.scheduled_date is None
    &&& o.refund_type is None
}

impl Default for TierChangeOptions {
    fn default() -> (o: Self)
        ensures
            plain_options(o, None, None),
            o.reason is None,
            o.downgrade_timing is None,
    {
        TierChangeOptions {
            source: None,
            changed_by: None,
            reason: None,
            skip_payment_validation: false,
            custom_price_cents: None,
            billing_interval: None,
            trial_days: None,
            scheduled_date: None,
            downgrade_timing: None,
            refund_type: None,
        }
    }
}

impl TierChangeOptions {
    /// Create options for a user-initiated upgrade
    pub fn user_upgrade() -> (o: Self)
        ensures
            plain_options(o, Some(TierChangeSource::UserUpgrade), None),
            o.reason is None,
            o.downgrade_timing is None,
    {
        let mut o = TierChangeOptions::default();
        o.source = Some(TierChangeSource::UserUpgrade);
        o
    }

    /// Create options for a user-initiated downgrade
    pub fn user_downgrade() -> (o: Self)
        ensures
            plain_options(o, Some(TierChangeSource::UserDowngrade), None),
            o.reason is None,
            o.downgrade_timing matches Some(t) && t@ == "end_of_period"@,
    {
        let mut o = TierChangeOptions::default();
        o.source = Some(TierChangeSource::UserDowngrade);
        o.downgrade_timing = Some("end_of_period".to_owned());
        o
    }

    /// Create options for an admin panel change
    pub fn admin_panel(changed_by: u128, reason: Option<String>) -> (o: Self)
        ensures
            plain_options(o, Some(TierChangeSource::AdminPanel), Some(changed_by)),
            o.reason == reason,
            o.downgrade_timing is None,
    {
        let mut o = TierChangeOptions::default();
        o.source = Some(TierChangeSource::AdminPanel);
        o.changed_by = Some(changed_by);
        o.reason = reason;
        o
    }

    /// Create options for a system automated change
    pub fn system(reason: &str) -> (o: Self)
        ensures
            plain_options(o, Some(TierChangeSource::System), None),
            o.reason matches Some(r) && r@ == reason@,
            o.downgrade_timing is None,
    {
        let mut o = TierChangeOptions::default();
        o.source = Some(TierChangeSource::System);
        o.reason = Some(reason.to_owned());
        o
    }
}

/// Result of a tier change operation
#[derive(Debug, Clone)]
pub struct TierChangeResult {
    /// Whether the change succeeded
    pub success: bool,
    /// Previous tier
    pub from_tier: String,
    /// New tier
    pub to_tier: String,
    /// Stripe subscription ID (None if downgraded to Free)
    pub stripe_subscription_id: Option<String>,
    /// Whether the change is scheduled for later
    pub scheduled: bool,
    /// Scheduled effective date if applicable
    pub effective_date: Option<Timestamp>,
    /// Credit/refund amount if applicable
    pub credit_cents: Option<i64>,
    /// Message explaining what happened
    pub message: String,
}

/// Who a billing event records as its actor.
#[derive(Debug, Clone, Copy, PartialEq, Eq, Structural)]
pub enum ActorType {
    User,
    Admin,
    System,
}

// =========================================================================
// The consolidated tier change
// =========================================================================

/// The source of a change: the one given, else a system change.
pub open spec fn effective_source(s: Option<TierChangeSource>) -> TierChangeSource {
    match s {
        Some(x) => x,
        None => TierChangeSource::System,
    }
}

/// The actor recorded for a source: the admin panel is an admin, user
/// upgrades and downgrades are the user, anything else the system.
pub open spec fn actor_of(s: TierChangeSource) -> ActorType {
    match s {
        TierChangeSource::AdminPanel => ActorType::Admin,
        TierChangeSource::UserUpgrade | TierChangeSource::UserDowngrade => ActorType::User,
        _ => ActorType::System,
    }
}

/// Who a tier change is recorded as made by: the user for exactly the
/// changes the user asked for (upgrades and downgrades, whose sources are
/// recorded with a `user_` prefix), an admin for exactly the admin panel,
/// and the system for the rest.
pub proof fn lemma_actor_follows_source(s: TierChangeSource)
    ensures
        (actor_of(s) == ActorType::User) <==> (s == TierChangeSource::UserUpgrade || s == TierChangeSource::UserDowngrade),
        (actor_of(s) == ActorType::Admin) <==> (s == TierChangeSource::AdminPanel),
        (actor_of(s) == ActorType::User) <==> (source_label(s).len() >= 5 && source_label(s).take(5) == "user_"@),
{
    reveal_strlit("user_upgrade");
    reveal_strlit("user_downgrade");
    reveal_strlit("admin_panel");
    reveal_strlit("stripe_webhook");
    reveal_strlit("system");
    reveal_strlit("user_");
    assert("user_upgrade"@.take(5) =~= "user_"@);
    assert("user_downgrade"@.take(5) =~= "user_"@);
    assert("admin_panel"@.take(5)[0] != "user_"@[0]);
    assert("stripe_webhook"@.take(5)[0] != "user_"@[0]);
    assert("system"@.take(5)[0] != "user_"@[0]);
}

/// Whole days until a period end, rounded up: between `days - 1` and `days`
/// whole days of seconds lie ahead, whenever that count fits an `i32`; past
/// that it saturates.
pub proof fn lemma_days_until_is_ceiling(period_end: int, now: int)
    ensures
        -(i32::MAX as int) * 86400 <= period_end - now <= (i32::MAX as int) * 86400 ==> {
            &&& (days_until(period_end, now) as int) * 86400 >= period_end - now
            &&& (days_until(period_end, now) as int - 1) * 86400 < period_end - now
        },
        period_end - now > (i32::MAX as int) * 86400 ==> days_until(period_end, now) == i32::MAX,
        0 <= period_end - now ==> days_until(period_end, now) >= 0,
{
    let d = period_end - now;
    let q = d / 86400;
    let r = d % 86400;
    assert(d == 86400 * q + r && 0 <= r < 86400);
    assert(ceil_div(d, 86400) == if r == 0 { q } else { q + 1 });
    if -(i32::MAX as int) * 86400 <= d <= (i32::MAX as int) * 86400 {
        assert(-(i32::MAX as int) - 1 <= q <= i32::MAX) by (nonlinear_arith)
            requires
                d == 86400 * q + r,
                0 <= r < 86400,
                -(i32::MAX as int) * 86400 <= d <= (i32::MAX as int) * 86400;
        if r != 0 {
            assert(q + 1 <= i32::MAX) by (nonlinear_arith)
                requires
                    d == 86400 * q + r,
                    0 < r < 86400,
                    d <= (i32::MAX as int) * 86400;
        }
    }
    if d > (i32::MAX as int) * 86400 {
        assert(q >= i32::MAX) by (nonlinear_arith)
            requires
                d == 86400 * q + r,
                0 <= r < 86400,
                d > (i32::MAX as int) * 86400;
    }
    if 0 <= d {
        assert(q >= 0) by (nonlinear_arith)
            requires
                d == 86400 * q + r,
                0 <= r < 86400,
                0 <= d;
    }
}

/// The source a change is recorded under.
pub fn tier_change_source(options: &TierChangeOptions) -> (r: TierChangeSource)
    ensures
        r == effective_source(options.source),
{
    match options.source {
        Some(s) => s,
        None => TierChangeSource::System,
    }
}

/// The actor a billing event records for a source.
pub fn actor_type_for(source: TierChangeSource) -> (r: ActorType)
    ensures
        r == actor_of(source),
{
    match source {
        TierChangeSource::AdminPanel => ActorType::Admin,
        TierChangeSource::UserUpgrade | TierChangeSource::UserDowngrade => ActorType::User,
        _ => ActorType::System,
    }
}

/// The message of a refused tier name.
pub open spec fn invalid_tier_message(t: Seq<char>) -> Seq<char> {
    "Invalid tier '"@ + t + "'. Valid tiers are: free, pro, team, enterprise"@
}

/// A tier change must name one of the four tiers.
pub fn validate_new_tier(new_tier: &str) -> (r: Result<(), BillingError>)
    ensures
        r is Ok <==> is_known_tier(new_tier@),
        r is Err ==> (r matches Err(BillingError::InvalidTier(m)) && m@ == invalid_tier_message(new_tier@)),
{
    if is_valid_tier(new_tier) {
        Ok(())
    } else {
        let mut m = "Invalid tier '".to_owned();
        m.append(new_tier);
        m.append("'. Valid tiers are: free, pro, team, enterprise");
        Err(BillingError::InvalidTier(m))
    }
}

/// The timing a change takes: the one asked for, else the end of the period
/// for a downgrade and at once for anything else.
pub open spec fn effective_timing(current: Seq<char>, new: Seq<char>, timing: Option<Seq<char>>) -> Seq<char> {
    match timing {
        Some(t) => t,
        None => if is_downgrade(current, new) { "end_of_period"@ } else { "immediate"@ },
    }
}

/// Whether a change is recorded as a downgrade at the period end rather
/// than made at once.
pub open spec fn schedules_change(current: Seq<char>, new: Seq<char>, timing: Option<Seq<char>>) -> bool {
    is_downgrade(current, new) && effective_timing(current, new, timing) == "end_of_period"@
}

/// Only downgrades are ever scheduled, and a downgrade with no timing asked
/// for is always scheduled for the period end.
pub proof fn lemma_only_downgrades_wait(current: Seq<char>, new: Seq<char>, timing: Option<Seq<char>>)
    ensures
        schedules_change(current, new, timing) ==> is_downgrade(current, new),
        is_downgrade(current, new) ==> schedules_change(current, new, None),
        !schedules_change(current, new, Some("immediate"@)),
{
    reveal_strlit("immediate");
    reveal_strlit("end_of_period");
    assert("immediate"@ != "end_of_period"@) by {
        assert("immediate"@[0] != "end_of_period"@[0]);
    }
}

/// Whether a tier change from `current_tier` to `new_tier` is scheduled for
/// the end of the billing period: it is a downgrade and its timing (by
/// default the period end for downgrades) is `end_of_period`.
pub fn is_scheduled_change(current_tier: &str, new_tier: &str, downgrade_timing: Option<&str>) -> (r: bool)
    ensures
        r == schedules_change(current_tier@, new_tier@, match downgrade_timing {
            Some(t) => Some(t@),
            None => None,
        }),
{
    let down = is_tier_downgrade(current_tier, new_tier);
    let timing = match downgrade_timing {
        Some(t) => t,
        None => if down { "end_of_period" } else { "immediate" },
    };
    down && str_eq(timing, "end_of_period")
}

/// The error when the organization of a tier change does not exist.
pub fn organization_not_found(org_id_text: &str) -> (r: BillingError)
    ensures
        r matches BillingError::NotFound(m) && m@ == "Organization "@ + org_id_text@ + " not found"@,
{
    let mut m = "Organization ".to_owned();
    m.append(org_id_text);
    m.append(" not found");
    BillingError::NotFound(m)
}

/// The outcome of the optimistic-lock update of an organization's tier: no
/// row updated means another process changed the tier first.
pub fn tier_update_outcome(rows_affected: u64) -> (r: Result<(), BillingError>)
    ensures
        r is Ok <==> rows_affected > 0,
        r is Err ==> (r matches Err(BillingError::ConcurrentModification(m))
            && m@ == "Tier was modified by another process. Please retry."@),
{
    if rows_affected == 0 {
        Err(BillingError::ConcurrentModification(
            "Tier was modified by another process. Please retry.".to_owned(),
        ))
    } else {
        Ok(())
    }
}

/// The date a scheduled change takes effect: the subscription's period end,
/// else now.
pub fn scheduled_effective_date(period_end: Option<Timestamp>, now: Timestamp) -> (r: Timestamp)
    ensures
        r == (match period_end { Some(e) => e, None => now }),
{
    match period_end {
        Some(e) => e,
        None => now,
    }
}

/// The result of a downgrade recorded for the period end.
pub fn scheduled_change_result(current_tier: String, new_tier: &str, effective_date: Timestamp) -> (r: TierChangeResult)
    ensures
        r.success,
        r.from_tier == current_tier,
        r.to_tier@ == new_tier@,
        r.stripe_subscription_id is None,
        r.scheduled,
        r.effective_date == Some(effective_date),
        r.credit_cents is None,
        r.message@ == "Downgrade to "@ + new_tier@ + " scheduled for "@ + datetime_display(effective_date@),
{
    let mut message = "Downgrade to ".to_owned();
    message.append(new_tier);
    message.append(" scheduled for ");
    let d = effective_date.display();
    message.append(d.as_str());
    TierChangeResult {
        success: true,
        from_tier: current_tier,
        to_tier: new_tier.to_owned(),
        stripe_subscription_id: None,
        scheduled: true,
        effective_date: Some(effective_date),
        credit_cents: None,
        message,
    }
}

/// The result of a tier change made at once.
pub fn immediate_change_result(current_tier: String, new_tier: &str) -> (r: TierChangeResult)
    ensures
        r.success,
        r.from_tier == current_tier,
        r.to_tier@ == new_tier@,
        r.stripe_subscription_id is None,
        !r.scheduled,
        r.effective_date is None,
        r.credit_cents is None,
        r.message@ == "Tier changed from "@ + current_tier@ + " to "@ + new_tier@,
{
    let mut message = "Tier changed from ".to_owned();
    message.append(current_tier.as_str());
    message.append(" to ");
    message.append(new_tier);
    TierChangeResult {
        success: true,
        from_tier: current_tier,
        to_tier: new_tier.to_owned(),
        stripe_subscription_id: None,
        scheduled: false,
        effective_date: None,
        credit_cents: None,
        message,
    }
}

// =========================================================================
// Upgrade proration preview
// =========================================================================

/// Preview of proration for subscription upgrade
#[derive(Debug, Clone)]
pub struct ProrationPreview {
    /// Current subscription tier
    pub current_tier: String,
    /// Target subscription tier
    pub new_tier: String,
    /// Prorated amount in cents (credit or charge for remaining period)
    pub proration_amount_cents: i64,
    /// Outstanding overage charges in cents
    pub overage_amount_cents: i64,
    /// Total amount to be charged in cents (proration + overages)
    pub total_amount_cents: i64,
    /// Days remaining in current billing period
    pub days_remaining: i32,
    /// Human-readable description of the proration
    pub description: String,
}


/// `a / b` rounded up, for `b > 0`.
pub open spec fn ceil_div(a: int, b: int) -> int {
    if a % b == 0 { a / b } else { a / b + 1 }
}

/// An integer clamped to the `i32` range, as a saturating `as i32` does.
pub open spec fn clamp_i32(x: int) -> i32 {
    if x < i32::MIN { i32::MIN } else if x > i32::MAX { i32::MAX } else { x as i32 }
}

/// Whole days left until `period_end`, counting a started day as a day.
/// The quotient is rounded up and saturates at the `i32` bounds.
pub open spec fn days_until(period_end: int, now: int) -> i32 {
    clamp_i32(ceil_div(period_end - now, 86400))
}

/// The description of an upgrade preview.
pub open spec fn preview_description(current: Seq<char>, new: Seq<char>, days: i32) -> Seq<char> {
    "Upgrade from "@ + current + " to "@ + new + " with "@ + int_text(days as int)
        + " days remaining"@
}

/// Days remaining until a period end, rounded up and clamped to `i32`.
pub fn days_remaining_until(period_end: i64, now: i64) -> (r: i32)
    requires
        i64::MIN <= period_end - now <= i64::MAX,
    ensures
        r == days_until(period_end as int, now as int),
{
    let diff: i64 = period_end - now;
    let q: i64 = if diff >= 0 {
        let whole = diff / SECONDS_PER_DAY;
        if diff % SECONDS_PER_DAY == 0 { whole } else { whole + 1 }
    } else {
        // ceil(-m / d) == -floor(m / d) for m > 0
        let m: i128 = 0i128 - (diff as i128);
        let whole: i128 = m / (SECONDS_PER_DAY as i128);
        assert(ceil_div(diff as int, 86400) == -(m as int / 86400)) by (nonlinear_arith)
            requires
                m == -(diff as int),
                m > 0,
        {
            let f = m as int / 86400;
            let r = m as int % 86400;
            assert(m as int == 86400 * f + r);
            assert(diff as int == 86400 * (-f - 1) + (86400 - r)) by {
                if r > 0 {
                }
            }
            if r == 0 {
                assert(diff as int == 86400 * (-f));
                assert((diff as int) % 86400 == 0);
                assert((diff as int) / 86400 == -f);
            } else {
                assert(0 < 86400 - r < 86400);
                assert((diff as int) / 86400 == -f - 1);
                assert((diff as int) % 86400 == 86400 - r);
            }
        }
        (0i128 - whole) as i64
    };
    if q < i32::MIN as i64 {
        i32::MIN
    } else if q > i32::MAX as i64 {
        i32::MAX
    } else {
        q as i32
    }
}

/// Builds the upgrade preview once Stripe's preview invoice and the pending
/// overages are known: the proration is the preview's amount due (zero when
/// Stripe gave none), overages default to zero, the current tier to
/// `unknown`.
pub fn proration_preview(
    current_tier: Option<&str>,
    new_tier: &str,
    amount_due: Option<i64>,
    pending_overage_cents: Option<i64>,
    period_end: i64,
    now: i64,
) -> (p: ProrationPreview)
    requires
        i64::MIN <= period_end - now <= i64::MAX,
        i64::MIN <= (match amount_due { Some(a) => a as int, None => 0 }) + (match pending_overage_cents {
            Some(o) => o as int,
            None => 0,
        }) <= i64::MAX,
    ensures
        p.current_tier@ == (match current_tier { Some(t) => t@, None => "unknown"@ }),
        p.new_tier@ == new_tier@,
        p.proration_amount_cents == (match amount_due { Some(a) => a, None => 0 }),
        p.overage_amount_cents == (match pending_overage_cents { Some(o) => o, None => 0 }),
        p.total_amount_cents == p.proration_amount_cents + p.overage_amount_cents,
        p.days_remaining == days_until(period_end as int, now as int),
        p.description@ == preview_description(p.current_tier@, new_tier@, p.days_remaining),
{
    let current = match current_tier {
        Some(t) => t.to_owned(),
        None => "unknown".to_owned(),
    };
    let proration = match amount_due {
        Some(a) => a,
        None => 0,
    };
    let overage = match pending_overage_cents {
        Some(o) => o,
        None => 0,
    };
    let days = days_remaining_until(period_end, now);
    let mut description = "Upgrade from ".to_owned();
    description.append(current.as_str());
    description.append(" to ");
    description.append(new_tier);
    description.append(" with ");
    push_int_text(&mut description, days as i64);
    description.append(" days remaining");
    assert(description@ =~= preview_description(current@, new_tier@, days));
    ProrationPreview {
        current_tier: current,
        new_tier: new_tier.to_owned(),
        proration_amount_cents: proration,
        overage_amount_cents: overage,
        total_amount_cents: proration + overage,
        days_remaining: days,
        description,
    }
}

/// The upgrade preview at the current time (by `chrono`'s clock). `None`
/// where the arithmetic would overflow: the time until the period end, or
/// the proration and overages together, outside the `i64` range. A period
/// end within `i64` reach of every `chrono` time never overflows.
pub fn proration_preview_now(
    current_tier: Option<&str>,
    new_tier: &str,
    amount_due: Option<i64>,
    pending_overage_cents: Option<i64>,
    period_end: i64,
) -> (r: Option<ProrationPreview>)
    ensures
        r matches Some(p) ==> exists|now: i64| {
            &&& p.days_remaining == days_until(period_end as int, now as int)
            &&& p.description@ == preview_description(p.current_tier@, new_tier@, p.days_remaining)
        },
        r matches Some(p) ==> p.current_tier@ == (match current_tier { Some(t) => t@, None => "unknown"@ })
            && p.new_tier@ == new_tier@
            && p.proration_amount_cents == (match amount_due { Some(a) => a, None => 0 })
            && p.overage_amount_cents == (match pending_overage_cents { Some(o) => o, None => 0 })
            && p.total_amount_cents == p.proration_amount_cents + p.overage_amount_cents,
        !(i64::MIN <= (match amount_due { Some(a) => a as int, None => 0 }) + (match pending_overage_cents {
            Some(o) => o as int,
            None => 0,
        }) <= i64::MAX) ==> r is None,
        (i64::MIN <= (match amount_due { Some(a) => a as int, None => 0 }) + (match pending_overage_cents {
            Some(o) => o as int,
            None => 0,
        }) <= i64::MAX && i64::MIN + CHRONO_TIMESTAMP_BOUND <= period_end <= i64::MAX - CHRONO_TIMESTAMP_BOUND)
            ==> r is Some,
{
    let now = chrono_now_seconds();
    let diff: i128 = (period_end as i128) - (now as i128);
    let a: i128 = match amount_due {
        Some(x) => x as i128,
        None => 0,
    };
    let o: i128 = match pending_overage_cents {
        Some(x) => x as i128,
        None => 0,
    };
    if diff < i64::MIN as i128 || diff > i64::MAX as i128 || a + o < i64::MIN as i128 || a + o > i64::MAX as i128 {
        return None;
    }
    Some(proration_preview(current_tier, new_tier, amount_due, pending_overage_cents, period_end, now))
}

// =========================================================================
// Scheduled downgrades
// =========================================================================

/// Information about a scheduled downgrade
#[derive(Debug, Clone)]
pub struct ScheduledDowngrade {
    pub current_tier: String,
    pub new_tier: String,
    pub effective_date: Timestamp,
}

/// What the subscription tells of its current tier and period when a
/// downgrade is scheduled: the `tier` of its metadata, the tier configured
/// for the price of its first item, and the end of its period.
pub struct SubscriptionTierInfo {
    pub metadata_tier: Option<String>,
    pub price_tier: Option<String>,
    pub current_period_end: i64,
}

/// The current tier of a subscription: its metadata's, else its price's.
pub open spec fn current_tier_of(info: SubscriptionTierInfo) -> Option<Seq<char>> {
    match info.metadata_tier {
        Some(t) => Some(t@),
        None => match info.price_tier {
            Some(t) => Some(t@),
            None => None,
        },
    }
}

/// Checks a downgrade to be scheduled and gives what is recorded. A paid
/// target tier must have a configured price (else `InvalidTier` with the
/// tier), the organization must have a subscription (else
/// `SubscriptionNotFound` with its ID), the current tier must be known from
/// the subscription's metadata or price (else `InvalidTier`), and the target
/// must rank strictly below it (else `InvalidTier`). The downgrade takes
/// effect at the period end, or now when that is no representable moment.
pub fn plan_scheduled_downgrade(
    org_id: u128,
    new_tier: &str,
    new_tier_price_configured: bool,
    subscription: Option<SubscriptionTierInfo>,
    now: Timestamp,
) -> (r: Result<ScheduledDowngrade, BillingError>)
    ensures
        new_tier@ != "free"@ && !new_tier_price_configured ==> (r matches Err(BillingError::InvalidTier(m))
            && m@ == new_tier@),
        (new_tier@ == "free"@ || new_tier_price_configured) ==> match subscription {
            None => r matches Err(BillingError::SubscriptionNotFound(m)) && m@ == uuid_hyphenated(org_id),
            Some(info) => match current_tier_of(info) {
                None => r matches Err(BillingError::InvalidTier(m))
                    && m@ == "Cannot determine current subscription tier. Please contact support."@,
                Some(current) => if tier_rank(new_tier@) >= tier_rank(current) {
                    r matches Err(BillingError::InvalidTier(m)) && m@ == "Cannot schedule downgrade from "@
                        + current + " to "@ + new_tier@ + " - use upgrade flow instead"@
                } else {
                    r matches Ok(d) && d.current_tier@ == current && d.new_tier@ == new_tier@
                        && d.effective_date@ == (if valid_unix_timestamp(info.current_period_end) {
                            info.current_period_end
                        } else {
                            now@
                        })
                },
            },
        },
{
    if !str_eq(new_tier, "free") && !new_tier_price_configured {
        return Err(BillingError::InvalidTier(new_tier.to_owned()));
    }
    let info = match subscription {
        None => return Err(BillingError::SubscriptionNotFound(uuid_text(org_id))),
        Some(i) => i,
    };
    let current = match info.metadata_tier {
        Some(t) => t,
        None => match info.price_tier {
            Some(t) => t,
            None => {
                return Err(BillingError::InvalidTier(
                    "Cannot determine current subscription tier. Please contact support.".to_owned(),
                ));
            },
        },
    };
    if tier_order(new_tier) >= tier_order(current.as_str()) {
        let mut m = "Cannot schedule downgrade from ".to_owned();
        m.append(current.as_str());
        m.append(" to ");
        m.append(new_tier);
        m.append(" - use upgrade flow instead");
        return Err(BillingError::InvalidTier(m));
    }
    let effective_date = Timestamp::from_unix_or(info.current_period_end, now);
    Ok(ScheduledDowngrade { current_tier: current, new_tier: new_tier.to_owned(), effective_date })
}

/// A scheduled downgrade to free also stops the subscription from renewing.
pub fn downgrade_stops_renewal(new_tier: &str) -> (r: bool)
    ensures
        r == (new_tier@ == "free"@),
{
    str_eq(new_tier, "free")
}

/// The outcome of cancelling a scheduled downgrade: an error when none was
/// recorded.
pub fn cancel_scheduled_outcome(rows_affected: u64) -> (r: Result<(), BillingError>)
    ensures
        r is Ok <==> rows_affected > 0,
        r is Err ==> (r matches Err(BillingError::Internal(m)) && m@ == "No scheduled downgrade to cancel"@),
{
    if rows_affected == 0 {
        Err(BillingError::Internal("No scheduled downgrade to cancel".to_owned()))
    } else {
        Ok(())
    }
}

/// The scheduled downgrade shown for an organization, from its active
/// subscription row (the scheduled tier and the period end) and its current
/// tier: none when nothing is scheduled; an error when the organization's
/// tier is unknown; the period end, else now, as the effective date.
pub fn scheduled_downgrade_view(
    scheduled_tier: Option<String>,
    period_end: Option<Timestamp>,
    current_tier: Option<String>,
    now: Timestamp,
) -> (r: Result<Option<ScheduledDowngrade>, BillingError>)
    ensures
        scheduled_tier is None ==> r == Ok::<Option<ScheduledDowngrade>, BillingError>(None),
        scheduled_tier is Some && current_tier is None ==> (r matches Err(BillingError::Database(m))
            && m@ == "Cannot determine current tier for scheduled downgrade"@),
        scheduled_tier is Some && current_tier is Some ==> (r matches Ok(Some(d))
            && d.current_tier == current_tier->0 && d.new_tier == scheduled_tier->0
            && d.effective_date == (match period_end { Some(e) => e, None => now })),
{
    match scheduled_tier {
        None => Ok(None),
        Some(new_tier) => match current_tier {
            None => Err(BillingError::Database(
                "Cannot determine current tier for scheduled downgrade".to_owned(),
            )),
            Some(current) => Ok(Some(ScheduledDowngrade {
                current_tier: current,
                new_tier,
                effective_date: match period_end {
                    Some(e) => e,
                    None => now,
                },
            })),
        },
    }
}

/// What processing a claimed scheduled downgrade does.
pub enum ScheduledDowngradeAction {
    /// Cancel the subscription and move the organization to free with these options
    CancelToFree { options: TierChangeOptions },
    /// Move the subscription to another paid tier
    ChangePaidTier { new_tier: String },
}

/// Processing a claimed downgrade: to free, the subscription is cancelled
/// and the tier changed at once, recorded as the admin's when an admin
/// scheduled it and as the user's otherwise; to a paid tier, the
/// subscription is moved to that tier.
pub fn scheduled_downgrade_action(new_tier: String, admin_scheduled: Option<bool>) -> (r: ScheduledDowngradeAction)
    ensures
        new_tier@ == "free"@ ==> (r matches ScheduledDowngradeAction::CancelToFree { options }
            && plain_options(options, Some(if admin_scheduled == Some(true) {
                TierChangeSource::AdminPanel
            } else {
                TierChangeSource::UserDowngrade
            }), None)
            && (options.reason matches Some(m) && m@ == "Scheduled downgrade to Free tier"@)
            && (options.downgrade_timing matches Some(t) && t@ == "immediate"@)),
        new_tier@ != "free"@ ==> r == (ScheduledDowngradeAction::ChangePaidTier { new_tier }),
{
    if str_eq(new_tier.as_str(), "free") {
        let admin = match admin_scheduled {
            Some(b) => b,
            None => false,
        };
        let mut options = TierChangeOptions::default();
        options.source = Some(if admin { TierChangeSource::AdminPanel } else { TierChangeSource::UserDowngrade });
        options.reason = Some("Scheduled downgrade to Free tier".to_owned());
        options.downgrade_timing = Some("immediate".to_owned());
        ScheduledDowngradeAction::CancelToFree { options }
    } else {
        ScheduledDowngradeAction::ChangePaidTier { new_tier }
    }
}

// =========================================================================
// Subscription updates and synchronization
// =========================================================================

/// Whether a Stripe error's text says that the customer has no payment method.
pub open spec fn says_no_payment_method(text: Seq<char>) -> bool {
    contains_seq(text, "no attached payment source"@) || contains_seq(text, "no default payment method"@)
        || contains_seq(text, "resource_missing"@)
}

/// The error of a failed subscription update, from the text of Stripe's
/// error: `PaymentMethodRequired` when it tells of a missing payment
/// method, else the text as a Stripe API error.
pub fn subscription_update_error(stripe_error: String) -> (r: BillingError)
    ensures
        says_no_payment_method(stripe_error@) ==> r == BillingError::PaymentMethodRequired,
        !says_no_payment_method(stripe_error@) ==> r == BillingError::StripeApi(stripe_error),
{
    if contains_text(stripe_error.as_str(), "no attached payment source")
        || contains_text(stripe_error.as_str(), "no default payment method")
        || contains_text(stripe_error.as_str(), "resource_missing")
    {
        BillingError::PaymentMethodRequired
    } else {
        BillingError::StripeApi(stripe_error)
    }
}

/// A configured monthly price for a tier, else an `InvalidTier` error naming
/// the tier.
pub fn monthly_price_id(tier: &str, configured: Option<&str>) -> (r: Result<String, BillingError>)
    ensures
        configured matches Some(p) ==> (r matches Ok(q) && q@ == p@),
        configured is None ==> (r matches Err(BillingError::InvalidTier(m)) && m@ == tier@),
{
    match configured {
        Some(p) => Ok(p.to_owned()),
        None => Err(BillingError::InvalidTier(tier.to_owned())),
    }
}

/// The price of an upgrade paid through checkout: the annual price for the
/// `annual` interval (its absence is `InvalidTier("{tier} (annual)")`), else
/// the monthly price.
pub fn checkout_upgrade_price_id(
    new_tier: &str,
    billing_interval: &str,
    annual: Option<&str>,
    monthly: Option<&str>,
) -> (r: Result<String, BillingError>)
    ensures
        billing_interval@ == "annual"@ ==> match annual {
            Some(p) => r matches Ok(q) && q@ == p@,
            None => r matches Err(BillingError::InvalidTier(m)) && m@ == new_tier@ + " (annual)"@,
        },
        billing_interval@ != "annual"@ ==> match monthly {
            Some(p) => r matches Ok(q) && q@ == p@,
            None => r matches Err(BillingError::InvalidTier(m)) && m@ == new_tier@,
        },
{
    if str_eq(billing_interval, "annual") {
        match annual {
            Some(p) => Ok(p.to_owned()),
            None => {
                let mut m = new_tier.to_owned();
                m.append(" (annual)");
                Err(BillingError::InvalidTier(m))
            },
        }
    } else {
        monthly_price_id(new_tier, monthly)
    }
}

/// The price of the add-on-only base subscription, which must be configured.
pub fn addon_only_price_id(configured: Option<&str>) -> (r: Result<String, BillingError>)
    ensures
        configured matches Some(p) ==> (r matches Ok(q) && q@ == p@),
        configured is None ==> (r matches Err(BillingError::Config(m))
            && m@ == "STRIPE_PRICE_ADDON_ONLY not configured"@),
{
    match configured {
        Some(p) => Ok(p.to_owned()),
        None => Err(BillingError::Config("STRIPE_PRICE_ADDON_ONLY not configured".to_owned())),
    }
}

/// The first subscription item's ID, which a tier change replaces; an
/// internal error when the subscription has none.
pub fn first_item_id(item_ids: &Vec<String>) -> (r: Result<String, BillingError>)
    ensures
        item_ids.len() > 0 ==> r == Ok::<String, BillingError>(item_ids@[0]),
        item_ids.len() == 0 ==> (r matches Err(BillingError::Internal(m)) && m@ == "No subscription items found"@),
{
    if item_ids.len() > 0 {
        Ok(item_ids[0].clone())
    } else {
        Err(BillingError::Internal("No subscription items found".to_owned()))
    }
}

/// Metadata of a new subscription: the organization and the tier.
pub fn new_subscription_metadata(org_id: u128, tier: &str) -> (m: Metadata)
    ensures
        m@ == Map::<Seq<char>, Seq<char>>::empty().insert("org_id"@, uuid_hyphenated(org_id)).insert("tier"@, tier@),
{
    let mut m = Metadata::new();
    m.insert("org_id".to_owned(), uuid_text(org_id));
    m.insert("tier".to_owned(), tier.to_owned());
    m
}

/// Metadata of an add-on-only base subscription for a free organization.
pub fn addon_only_metadata(org_id: u128) -> (m: Metadata)
    ensures
        m@ == Map::<Seq<char>, Seq<char>>::empty().insert("org_id"@, uuid_hyphenated(org_id)).insert("tier"@, "free"@)
            .insert("type"@, "addon_only"@),
{
    let mut m = Metadata::new();
    m.insert("org_id".to_owned(), uuid_text(org_id));
    m.insert("tier".to_owned(), "free".to_owned());
    m.insert("type".to_owned(), "addon_only".to_owned());
    m
}

/// Metadata set when a subscription moves to a new tier.
pub fn tier_update_metadata(new_tier: &str) -> (m: Metadata)
    ensures
        m@ == Map::<Seq<char>, Seq<char>>::empty().insert("tier"@, new_tier@),
{
    let mut m = Metadata::new();
    m.insert("tier".to_owned(), new_tier.to_owned());
    m
}

/// Metadata set when a subscription moves to a tier paid through checkout.
pub fn checkout_upgrade_metadata(new_tier: &str) -> (m: Metadata)
    ensures
        m@ == Map::<Seq<char>, Seq<char>>::empty().insert("tier"@, new_tier@).insert("upgraded_via"@, "checkout_payment"@),
{
    let mut m = Metadata::new();
    m.insert("tier".to_owned(), new_tier.to_owned());
    m.insert("upgraded_via".to_owned(), "checkout_payment".to_owned());
    m
}

/// The statuses of a Stripe subscription.
#[derive(Debug, Clone, Copy, PartialEq, Eq, Structural)]
pub enum SubscriptionStatus {
    Active,
    PastDue,
    Canceled,
    Unpaid,
    Trialing,
    Incomplete,
    IncompleteExpired,
    Paused,
}

/// The name a status is stored under.
pub open spec fn status_label(s: SubscriptionStatus) -> Seq<char> {
    match s {
        SubscriptionStatus::Active => "active"@,
        SubscriptionStatus::PastDue => "past_due"@,
        SubscriptionStatus::Canceled => "canceled"@,
        SubscriptionStatus::Unpaid => "unpaid"@,
        SubscriptionStatus::Trialing => "trialing"@,
        SubscriptionStatus::Incomplete => "incomplete"@,
        SubscriptionStatus::IncompleteExpired => "incomplete_expired"@,
        SubscriptionStatus::Paused => "paused"@,
    }
}

impl SubscriptionStatus {
    /// The name the status is stored under.
    pub fn as_str(&self) -> (r: &'static str)
        ensures
            r@ == status_label(*self),
    {
        match self {
            SubscriptionStatus::Active => "active",
            SubscriptionStatus::PastDue => "past_due",
            SubscriptionStatus::Canceled => "canceled",
            SubscriptionStatus::Unpaid => "unpaid",
            SubscriptionStatus::Trialing => "trialing",
            SubscriptionStatus::Incomplete => "incomplete",
            SubscriptionStatus::IncompleteExpired => "incomplete_expired",
            SubscriptionStatus::Paused => "paused",
        }
    }
}

/// Each status is stored under a name of its own.
pub proof fn lemma_status_labels_distinct(a: SubscriptionStatus, b: SubscriptionStatus)
    ensures
        status_label(a) == status_label(b) ==> a == b,
{
    reveal_strlit("active");
    reveal_strlit("past_due");
    reveal_strlit("canceled");
    reveal_strlit("unpaid");
    reveal_strlit("trialing");
    reveal_strlit("incomplete");
    reveal_strlit("incomplete_expired");
    reveal_strlit("paused");
    if status_label(a) == status_label(b) && a != b {
        let la = status_label(a);
        let lb = status_label(b);
        assert(la.len() == lb.len());
        assert(la[0] == lb[0]);
        assert(la[1] == lb[1]);
        assert(la[2] == lb[2]);
    }
}

/// A subscription item as the synchronization reads it: its ID and whether
/// its price is metered.
pub struct SyncItem {
    pub id: String,
    pub metered: bool,
}

/// The item that carries overage billing: the first item with a metered price.
pub fn metered_item_id(items: &Vec<SyncItem>) -> (r: Option<String>)
    ensures
        r is Some <==> exists|i: int| 0 <= i < items.len() && (#[trigger] items@[i]).metered,
        r matches Some(id) ==> exists|i: int| 0 <= i < items.len() && (#[trigger] items@[i]).metered
            && items@[i].id == id && forall|j: int| 0 <= j < i ==> !(#[trigger] items@[j]).metered,
{
    let mut i: usize = 0;
    while i < items.len()
        invariant
            i <= items.len(),
            forall|j: int| 0 <= j < i ==> !(#[trigger] items@[j]).metered,
        decreases items.len() - i,
    {
        if items[i].metered {
            return Some(items[i].id.clone());
        }
        i = i + 1;
    }
    None
}

/// The options under which a synchronization with Stripe sets the tier:
/// recorded as coming from Stripe, taking effect at once.
pub fn sync_tier_options() -> (o: TierChangeOptions)
    ensures
        plain_options(o, Some(TierChangeSource::StripeWebhook), None),
        o.reason is None,
        o.downgrade_timing matches Some(t) && t@ == "immediate"@,
{
    let mut o = TierChangeOptions::default();
    o.source = Some(TierChangeSource::StripeWebhook);
    o.downgrade_timing = Some("immediate".to_owned());
    o
}

/// The options under which a user's upgrade sets the tier.
pub fn upgrade_tier_options(reason: Option<&str>) -> (o: TierChangeOptions)
    ensures
        plain_options(o, Some(TierChangeSource::UserUpgrade), None),
        reason is None ==> o.reason is None,
        reason matches Some(r) ==> (o.reason matches Some(x) && x@ == r@),
        o.downgrade_timing is None,
{
    let mut o = TierChangeOptions::default();
    o.source = Some(TierChangeSource::UserUpgrade);
    o.reason = match reason {
        Some(r) => Some(r.to_owned()),
        None => None,
    };
    o
}

} // verus!
