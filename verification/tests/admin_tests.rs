use plexmcp_billing::admin::{
    admin_reuses_subscription, customer_has_payment_method, free_downgrade_path, FreeDowngradePath,
    admin_free_options, downgrade_prorates, immediate_downgrade_options,
    admin_price_plan, admin_scheduled_result, admin_subscription_metadata, admin_upgrade_result,
    cancelled_to_free_result, custom_price_interval, downgrade_price_plan, free_downgrade_refund_request,
    free_downgrade_result, give_back_for, give_back_outcome, give_back_summary, immediate_downgrade_result, scheduled_free_result,
    set_free_result, start_date_trial_days, AdminPricePlan, AdminTierChangeParams, DowngradePricePlan, GiveBack,
    GiveBackOutcome, PriceInterval,
};
use plexmcp_billing::error::BillingError;
use plexmcp_billing::subscriptions::{is_scheduled_change, SubscriptionStatus, scheduled_change_result, ScheduledDowngrade};
use plexmcp_billing::timeutil::Timestamp;

fn params(tier: &str) -> AdminTierChangeParams {
    AdminTierChangeParams {
        new_tier: tier.to_string(),
        trial_days: None,
        reason: "ops".to_string(),
        skip_payment_validation: false,
        billing_interval: None,
        custom_price_cents: None,
        subscription_start_date: None,
        payment_method: None,
        admin_user_id: None,
        downgrade_timing: None,
        refund_type: None,
    }
}

fn ts(secs: i64) -> Timestamp {
    Timestamp::from_unix(secs).unwrap()
}

#[test]
fn custom_enterprise_prices() {
    let mut p = params("enterprise");
    p.custom_price_cents = Some(499900);
    p.billing_interval = Some("annual".to_string());
    let plan = admin_price_plan(&p);
    assert_eq!(plan, AdminPricePlan::Custom { amount_cents: 499900, interval: "year".to_string() });
    // the upgrade passes "year", which gives a yearly price
    assert_eq!(custom_price_interval("year"), PriceInterval::Year);
    assert_eq!(custom_price_interval("month"), PriceInterval::Month);
    assert_eq!(custom_price_interval("annual"), PriceInterval::Year);
    assert_eq!(downgrade_price_plan(&p), DowngradePricePlan::Custom { amount_cents: 499900, interval: "annual".to_string() });
    let q = params("pro");
    assert_eq!(admin_price_plan(&q), AdminPricePlan::Configured { annual: false });
    assert_eq!(downgrade_price_plan(&q), DowngradePricePlan::Monthly);
}

#[test]
fn admin_results() {
    let mut p = params("team");
    p.trial_days = Some(14);
    let m = admin_subscription_metadata(5, &p);
    assert_eq!(m.get("admin_trial"), Some("true".to_string()));
    assert_eq!(m.get("tier"), Some("team".to_string()));
    let r = admin_upgrade_result(
        "sub_1".to_string(), "cus_1".to_string(), &p, Some(1_700_000_000), ts(1), (None, None), None,
    );
    assert_eq!(r.message, "Tier changed to team immediately with proration");
    assert_eq!(r.trial_end.map(|t| t.unix()), Some(1_700_000_000));
    assert_eq!(r.billing_interval, "monthly");
    let f = set_free_result(None);
    assert_eq!(f.stripe_customer_id, "no_customer");
    assert_eq!(f.message, "Organization set to Free tier immediately");
    let c = cancelled_to_free_result("sub_1".to_string(), "cus_1".to_string());
    assert_eq!(c.message, "Subscription cancelled, downgraded to Free tier immediately");
}

#[test]
fn start_dates_become_trials() {
    let now = ts(1_700_000_000);
    assert_eq!(start_date_trial_days(Some(ts(1_700_000_000 + 3 * 86_400 + 10)), now), Some(3));
    assert_eq!(start_date_trial_days(Some(ts(1_700_000_000 + 86_399)), now), None);
    assert_eq!(start_date_trial_days(Some(ts(1_600_000_000)), now), None);
    assert_eq!(start_date_trial_days(None, now), None);
}

#[test]
fn immediate_downgrade_reports_credit() {
    let p = params("pro");
    let r = immediate_downgrade_result("sub_1".to_string(), "cus_1".to_string(), &p, "price_p".to_string(), GiveBackOutcome::Credited(1234));
    assert!(r.refund_issued);
    assert_eq!(r.refund_amount_cents, Some(1234));
    assert_eq!(r.refund_type, Some("credit".to_string()));
    assert_eq!(r.custom_price_id, None);
    assert_eq!(r.message, "Immediate downgrade to pro completed with prorated credit for unused time ($12.34 credit)");
    let none = immediate_downgrade_result("sub_1".to_string(), "cus_1".to_string(), &p, "price_p".to_string(), GiveBackOutcome::ChargeUnavailable);
    assert!(!none.refund_issued);
    assert_eq!(none.refund_amount_cents, None);
    assert_eq!(none.message, "Immediate downgrade to pro completed with prorated credit for unused time");
    let e = immediate_downgrade_result("sub_1".to_string(), "cus_1".to_string(), &params("enterprise"), "price_e".to_string(), GiveBackOutcome::NothingDue);
    assert_eq!(e.custom_price_id, Some("price_e".to_string()));
    assert!(!e.refund_issued);
    assert_eq!(e.refund_amount_cents, Some(0));
}

#[test]
fn immediate_downgrade_refunds_when_asked() {
    let mut p = params("pro");
    p.refund_type = Some("refund".to_string());
    assert!(!downgrade_prorates(&p));
    assert!(downgrade_prorates(&params("pro")));
    assert_eq!(immediate_downgrade_options(&p).refund_type, Some("refund".to_string()));
    assert_eq!(immediate_downgrade_options(&params("pro")).refund_type, Some("credit".to_string()));
    let r = immediate_downgrade_result("sub_1".to_string(), "cus_1".to_string(), &p, "price_p".to_string(), GiveBackOutcome::Refunded(500));
    assert!(r.refund_issued);
    assert_eq!(r.refund_amount_cents, Some(500));
    assert_eq!(r.refund_type, Some("refund".to_string()));
    assert_eq!(r.message, "Immediate downgrade to pro completed with prorated refund for unused time ($5.00 refund)");
    let f = immediate_downgrade_result("sub_1".to_string(), "cus_1".to_string(), &p, "price_p".to_string(), GiveBackOutcome::RefundFailed);
    assert!(!f.refund_issued);
    assert_eq!(f.message, "Immediate downgrade to pro completed with prorated refund for unused time (refund failed)");
}

#[test]
fn admin_moves_to_free_at_once() {
    let o = admin_free_options(&params("free"));
    assert_eq!(o.downgrade_timing, Some("immediate".to_string()));
    assert!(!is_scheduled_change("pro", "free", o.downgrade_timing.as_deref()));
}

#[test]
fn free_downgrade_give_back() {
    let mut p = params("free");
    assert_eq!(free_downgrade_refund_request(&p, false), Ok(None));
    p.refund_type = Some("refund".to_string());
    assert_eq!(
        free_downgrade_refund_request(&p, false),
        Err(BillingError::Internal("Admin user ID required for refund".to_string()))
    );
    assert_eq!(free_downgrade_refund_request(&p, true), Ok(None));
    p.admin_user_id = Some(3);
    assert_eq!(free_downgrade_refund_request(&p, false), Ok(Some(3)));
    assert_eq!(give_back_for(&p.refund_type, 500), GiveBack::Refund);
    assert_eq!(give_back_for(&None, 500), GiveBack::Credit);
    assert_eq!(give_back_for(&p.refund_type, 0), GiveBack::NothingDue);
    assert_eq!(give_back_summary(GiveBackOutcome::Refunded(450)), (true, Some(450)));
    assert_eq!(give_back_summary(GiveBackOutcome::NothingDue), (false, Some(0)));
    assert_eq!(give_back_summary(GiveBackOutcome::RefundFailed), (false, None));

    let r = free_downgrade_result("sub_1".to_string(), "cus_1".to_string(), &p, false, GiveBackOutcome::Refunded(450));
    assert_eq!(r.message, "Subscription cancelled, downgraded to Free tier immediately ($4.50 refund issued)");
    let z = free_downgrade_result("sub_1".to_string(), "cus_1".to_string(), &p, false, GiveBackOutcome::NothingDue);
    assert_eq!(z.message, "Subscription cancelled, downgraded to Free tier immediately (no prorated amount due)");
    let q = free_downgrade_result("sub_1".to_string(), "cus_1".to_string(), &p, false, GiveBackOutcome::RefundFailed);
    assert_eq!(q.message, "Subscription cancelled, downgraded to Free tier immediately (refund requested)");
    let a = free_downgrade_result("sub_1".to_string(), "cus_1".to_string(), &p, true, GiveBackOutcome::Refunded(450));
    assert_eq!(a.message, "Subscription was already canceled, organization set to Free tier");
    assert!(!a.refund_issued);
    assert_eq!(a.refund_amount_cents, None);
    assert_eq!(give_back_summary(GiveBackOutcome::Credited(0)), (false, Some(0)));
    let none_asked = free_downgrade_result("sub_1".to_string(), "cus_1".to_string(), &params("free"), false, GiveBackOutcome::Credited(300));
    assert!(!none_asked.refund_issued);
}

#[test]
fn give_back_outcomes_carry_positive_amounts() {
    let refund = Some("refund".to_string());
    assert_eq!(give_back_outcome(&refund, 500, true), GiveBackOutcome::Refunded(500));
    assert_eq!(give_back_outcome(&refund, 500, false), GiveBackOutcome::RefundFailed);
    assert_eq!(give_back_outcome(&None, 500, false), GiveBackOutcome::Credited(500));
    assert_eq!(give_back_outcome(&Some("credit".to_string()), 500, true), GiveBackOutcome::Credited(500));
    assert_eq!(give_back_outcome(&refund, 0, true), GiveBackOutcome::NothingDue);
    assert_eq!(give_back_outcome(&None, -5, true), GiveBackOutcome::NothingDue);
}

#[test]
fn scheduled_messages_show_dates() {
    let d = ts(1_700_000_000);
    let r = scheduled_free_result("sub_1".to_string(), "cus_1".to_string(), "team", Some(d));
    assert_eq!(r.message, "Downgrade to Free tier scheduled for end of billing period (2023-11-14 22:13:20.0 +00:00:00)");
    assert_eq!(r.tier, "team");
    let n = scheduled_free_result("sub_1".to_string(), "cus_1".to_string(), "team", None);
    assert_eq!(n.message, "Downgrade to Free tier scheduled for end of billing period");
    let s = ScheduledDowngrade { current_tier: "team".to_string(), new_tier: "pro".to_string(), effective_date: d };
    let a = admin_scheduled_result("sub_1".to_string(), "cus_1".to_string(), &params("pro"), &s);
    assert_eq!(a.message, "Downgrade to pro scheduled for end of billing period (2023-11-14 22:13:20.0 +00:00:00)");
    assert_eq!(a.tier, "team");
    let c = scheduled_change_result("team".to_string(), "pro", d);
    assert_eq!(c.message, "Downgrade to pro scheduled for 2023-11-14 22:13:20.0 +00:00:00");
}

#[test]
fn free_downgrades_default_to_the_period_end() {
    let mut p = params("free");
    assert_eq!(free_downgrade_path(&p, SubscriptionStatus::Active), FreeDowngradePath::AtPeriodEnd);
    p.downgrade_timing = Some("scheduled".to_string());
    assert_eq!(free_downgrade_path(&p, SubscriptionStatus::Active), FreeDowngradePath::AtPeriodEnd);
    p.downgrade_timing = Some("immediate".to_string());
    assert_eq!(free_downgrade_path(&p, SubscriptionStatus::PastDue), FreeDowngradePath::Immediate);
    assert_eq!(free_downgrade_path(&p, SubscriptionStatus::Canceled), FreeDowngradePath::AlreadyCancelled);
    p.downgrade_timing = Some("later".to_string());
    assert_eq!(free_downgrade_path(&p, SubscriptionStatus::Active), FreeDowngradePath::Immediate);
    p.downgrade_timing = Some("scheduled".to_string());
    assert_eq!(free_downgrade_path(&p, SubscriptionStatus::Canceled), FreeDowngradePath::AtPeriodEnd);
    p.downgrade_timing = None;
    assert_eq!(free_downgrade_path(&p, SubscriptionStatus::Canceled), FreeDowngradePath::AtPeriodEnd);
    assert!(admin_reuses_subscription(Some(SubscriptionStatus::Active)));
    assert!(!admin_reuses_subscription(Some(SubscriptionStatus::Canceled)));
    assert!(!admin_reuses_subscription(None));
    assert!(customer_has_payment_method(None, Some("pm_1".to_string())));
    assert!(customer_has_payment_method(Some("card_1".to_string()), None));
    assert!(!customer_has_payment_method(None, None));
}
