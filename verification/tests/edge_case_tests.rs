use plexmcp_billing::admin::{validate_admin_change, AdminTierChangeParams, MAX_TRIAL_DAYS};
use plexmcp_billing::error::BillingError;
use plexmcp_billing::webhooks::{
    classify_event_type, timestamp_within_tolerance, StripeEventKind, WEBHOOK_TOLERANCE_SECONDS,
};

fn params_with_trial(days: Option<u32>) -> AdminTierChangeParams {
    AdminTierChangeParams {
        new_tier: "pro".to_string(),
        trial_days: days,
        reason: "Test".to_string(),
        skip_payment_validation: false,
        billing_interval: None,
        custom_price_cents: None,
        subscription_start_date: None,
        payment_method: None,
        admin_user_id: None,
        downgrade_timing: None,
        refund_type: None,
    }
}

// BILL-SC09: Cap $100,000.01 - should be rejected (max $100K)
#[test]
fn test_cap_amount_as_i32() {
    // $100,000 = 10,000,000 cents which fits in i32
    let max_cents: i32 = 10_000_000; // $100K
    assert!(max_cents <= i32::MAX, "Max cap fits in i32");
}

// SpendCapStatus percentage calculation
#[test]
fn test_percentage_calculation() {
    // 50% usage
    let cap = 10000; // $100
    let spend = 5000; // $50
    let percentage = (spend as f64 / cap as f64) * 100.0;
    assert!((percentage - 50.0).abs() < 0.001, "50% calculation");

    // 100% usage
    let spend = 10000;
    let percentage = (spend as f64 / cap as f64) * 100.0;
    assert!((percentage - 100.0).abs() < 0.001, "100% calculation");

    // 150% overage
    let spend = 15000;
    let percentage = (spend as f64 / cap as f64) * 100.0;
    assert!((percentage - 150.0).abs() < 0.001, "150% calculation");
}

// BILL-W03: Signature 301s old - should be rejected
// BILL-W04: Signature 300s old - should be accepted
#[test]
fn test_webhook_timestamp_tolerance() {
    let tolerance_seconds = WEBHOOK_TOLERANCE_SECONDS;
    assert_eq!(tolerance_seconds, 300);

    // 300s old should be accepted
    assert!(300 <= tolerance_seconds, "300s should be within tolerance");
    assert!(timestamp_within_tolerance(1_700_000_300, 1_700_000_000), "300s should be within tolerance");

    // 301s old should be rejected
    assert!(301 > tolerance_seconds, "301s should exceed tolerance");
    assert!(!timestamp_within_tolerance(1_700_000_301, 1_700_000_000), "301s should exceed tolerance");
}

// BILL-W08: Unknown event type - should be logged, ignored
#[test]
fn test_known_event_types() {
    let known_types = [
        "customer.subscription.created",
        "customer.subscription.updated",
        "customer.subscription.deleted",
        "customer.subscription.trial_will_end",
        "invoice.paid",
        "invoice.payment_failed",
        "invoice.finalized",
        "checkout.session.completed",
    ];

    assert_eq!(known_types.len(), 8, "8 known event types");
    for t in known_types {
        assert_ne!(classify_event_type(t), StripeEventKind::Unhandled, "{} should be handled", t);
    }
    assert_eq!(classify_event_type("product.created"), StripeEventKind::Unhandled);
}

// BILL-IC01: $50.00 overage - charge should be triggered
// BILL-IC02: $49.99 overage - no charge
#[test]
fn test_instant_charge_threshold() {
    // Threshold is $50.00 = 5000 cents
    let threshold_cents = 5000;

    // $50.00 should trigger
    assert!(5000 >= threshold_cents, "$50.00 should trigger");

    // $49.99 should not trigger
    assert!(4999 < threshold_cents, "$49.99 should not trigger");
}

// BILL-IC03: 2nd charge at 30min - should be blocked (1hr cooldown)
// BILL-IC04: Charge at exactly 60:00 - should be allowed
#[test]
fn test_instant_charge_cooldown() {
    // Cooldown is 1 hour = 3600 seconds
    let cooldown_seconds = 3600;

    // 30 minutes = 1800 seconds, within cooldown
    assert!(1800 < cooldown_seconds, "30min should be within cooldown");

    // Exactly 60 minutes = 3600 seconds, should be allowed
    assert!(3600 >= cooldown_seconds, "60min should be at/past cooldown");
}

// BILL-S03: Trial 730 days - should be accepted (max 2 years)
// BILL-S04: Trial 731 days - should be rejected
#[test]
fn test_trial_duration_limits() {
    let max_trial_days = MAX_TRIAL_DAYS;
    assert_eq!(max_trial_days, 730);

    // 730 should be accepted
    assert!(730 <= max_trial_days, "730 days should be accepted");
    assert!(validate_admin_change(&params_with_trial(Some(730))).is_ok(), "730 days should be accepted");

    // 731 should be rejected
    assert!(731 > max_trial_days, "731 days should be rejected");
    assert_eq!(
        validate_admin_change(&params_with_trial(Some(731))),
        Err(BillingError::InvalidTier(
            "Trial period must be between 0 and 730 days, got 731".to_string()
        )),
        "731 days should be rejected"
    );
}
