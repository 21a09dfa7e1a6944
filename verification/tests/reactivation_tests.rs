use plexmcp_billing::reactivation::new_coupon_id;
use plexmcp_billing::error::BillingError;
use plexmcp_billing::reactivation::{
    check_coupon_amount, checkout_flow, coupon_id, net_reactivation_credit, reactivation_credit,
    reactivation_metadata, reactivation_path, reactivation_price_id, reactivation_result,
    trial_days_from_credit, validate_reactivation_tier, CancelledSubscriptionInfo, ReactivationPath,
};
use plexmcp_billing::timeutil::Timestamp;

fn ts(secs: i64) -> Timestamp {
    Timestamp::from_unix(secs).unwrap()
}

fn cancelled(start: i64, end: i64) -> CancelledSubscriptionInfo {
    CancelledSubscriptionInfo {
        stripe_subscription_id: "sub_1".to_string(),
        stripe_price_id: None,
        current_period_start: ts(start),
        current_period_end: ts(end),
        canceled_at: None,
    }
}

#[test]
fn credit_is_share_of_remaining_period() {
    let c = cancelled(1_000_000, 1_000_000 + 3_000_000);
    // a third of the period remains, default price 2900
    assert_eq!(reactivation_credit(Some(&c), None, ts(1_000_000 + 2_000_000)), 966);
    assert_eq!(reactivation_credit(Some(&c), Some(9000), ts(1_000_000 + 2_000_000)), 3000);
    // period over: nothing
    assert_eq!(reactivation_credit(Some(&c), Some(9000), ts(1_000_000 + 3_000_000)), 0);
    assert_eq!(reactivation_credit(None, Some(9000), ts(0)), 0);
}

#[test]
fn overages_must_fit_in_credit() {
    assert_eq!(net_reactivation_credit(3000, 1000, "https://app"), Ok(2000));
    assert_eq!(
        net_reactivation_credit(1000, 3000, "https://app"),
        Err(BillingError::OveragesExceedCredit {
            overage_cents: 3000,
            credit_cents: 1000,
            pay_first_url: "https://app/billing/overages".to_string(),
        })
    );
}

#[test]
fn credit_buys_trial_days() {
    // two full months and half a month
    assert_eq!(trial_days_from_credit(5000, 2000), 75);
    // capped at 90
    assert_eq!(trial_days_from_credit(20000, 2000), 90);
    // less than a month: none
    assert_eq!(trial_days_from_credit(1999, 2000), 0);
    assert_eq!(reactivation_path(0, 1999, 2000), ReactivationPath::Checkout);
    assert_eq!(reactivation_path(30, 2000, 2000), ReactivationPath::WithTrial);
    assert_eq!(reactivation_path(0, 0, 2000), ReactivationPath::Plain);
}

#[test]
fn reactivation_refuses_free_and_small_coupons() {
    assert!(validate_reactivation_tier("pro").is_ok());
    assert_eq!(
        validate_reactivation_tier("free"),
        Err(BillingError::InvalidTier("Cannot reactivate to free tier - use downgrade instead".to_string()))
    );
    assert!(check_coupon_amount(50).is_ok());
    assert_eq!(
        check_coupon_amount(49),
        Err(BillingError::InvalidAmount(
            "Credit amount 49 cents is too small to create a coupon (minimum 50 cents)".to_string()
        ))
    );
}

#[test]
fn annual_intervals_in_any_case() {
    assert_eq!(reactivation_price_id("pro", "Yearly", Some("price_a"), Some("price_m")), Ok("price_a".to_string()));
    assert_eq!(reactivation_price_id("pro", "monthly", Some("price_a"), Some("price_m")), Ok("price_m".to_string()));
    assert_eq!(
        reactivation_price_id("team", "ANNUAL", None, Some("price_m")),
        Err(BillingError::InvalidTier("team (annual pricing not configured)".to_string()))
    );
}

#[test]
fn coupon_ids_have_fixed_shape() {
    let id = coupon_id(0x0123_4567_89ab_cdef_0000_0000_0000_0000, 1_700_000_000, 0xfedc_ba98_0000_0000_0000_0000_0000_0000);
    assert_eq!(id, "rx_01234567_1700000000_fedcba98");
    assert_eq!(id.len(), 31);
    let padded = coupon_id(0, 42, 0);
    assert_eq!(padded, "rx_00000000_0000000042_00000000");
}

#[test]
fn partial_credit_goes_to_checkout() {
    match checkout_flow(Some("rx_1".to_string()), 1500, "pro", "monthly", "cus_1".to_string()) {
        BillingError::UseCheckoutFlow { credit_cents, coupon_id, .. } => {
            assert_eq!(credit_cents, 1500);
            assert_eq!(coupon_id, Some("rx_1".to_string()));
        }
        other => panic!("unexpected {:?}", other),
    }
    match checkout_flow(None, 1500, "pro", "monthly", "cus_1".to_string()) {
        BillingError::UseCheckoutFlow { credit_cents, coupon_id, .. } => {
            assert_eq!(credit_cents, 0);
            assert_eq!(coupon_id, None);
        }
        other => panic!("unexpected {:?}", other),
    }
}

#[test]
fn reactivation_messages_and_metadata() {
    let now = ts(1_700_000_000);
    let r = reactivation_result(
        "sub_2".to_string(), "cus_1".to_string(), "pro", "monthly", 3000, 1000, 2000, 30, 1_702_592_000, now, None,
    );
    assert_eq!(
        r.message,
        "Subscription reactivated with 30 days credit applied ($30.00 credit - $10.00 overages = $20.00 net)"
    );
    let r0 = reactivation_result(
        "sub_2".to_string(), "cus_1".to_string(), "pro", "monthly", 500, 500, 0, 0, 1_702_592_000, now, None,
    );
    assert_eq!(r0.message, "Subscription reactivated. $5.00 in overages were deducted from your $5.00 credit.");
    let m = reactivation_metadata(1, "pro", 2000, 0);
    assert_eq!(m.get("credit_applied_cents"), Some("2000".to_string()));
    assert_eq!(m.get("overages_deducted_cents"), None);
    assert_eq!(m.get("reactivation"), Some("true".to_string()));
}

#[test]
fn fresh_coupon_ids_carry_the_organization_prefix() {
    let org: u128 = 0x0123_4567_89ab_cdef_0000_0000_0000_0000;
    let a = new_coupon_id(org);
    assert!(a.starts_with("rx_01234567_"));
    assert_eq!(a.len(), 31);
    assert!(a.len() <= 40);
}
