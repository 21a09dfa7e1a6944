use plexmcp_billing::subscriptions::proration_preview_now;
use plexmcp_billing::subscriptions::{is_tier_downgrade, tier_order, TierChangeSource};

#[test]
fn test_tier_ordering_logic() {
    // Free is lowest
    assert_eq!(tier_order("free"), 0);
    // Pro > Free
    assert!(tier_order("pro") > tier_order("free"));
    // Team > Pro
    assert!(tier_order("team") > tier_order("pro"));
    // Enterprise is highest
    assert!(tier_order("enterprise") > tier_order("team"));
    // Unknown tiers default to 0 (free)
    assert_eq!(tier_order("unknown"), 0);
}

#[test]
fn test_upgrade_detection() {
    // Upgrade: new_order > current_order
    assert!(tier_order("pro") > tier_order("free")); // Free → Pro is upgrade
    assert!(tier_order("team") > tier_order("pro")); // Pro → Team is upgrade

    // Downgrade: new_order < current_order
    assert!(tier_order("pro") < tier_order("team")); // Team → Pro is downgrade
    assert!(tier_order("free") < tier_order("pro")); // Pro → Free is downgrade

    // Same tier: no change
    assert!(tier_order("pro") == tier_order("pro"));
}

#[test]
fn downgrade_detection_ignores_case() {
    assert!(is_tier_downgrade("Team", "pro"));
    assert!(is_tier_downgrade("ENTERPRISE", "Free"));
    assert!(!is_tier_downgrade("pro", "TEAM"));
    assert!(!is_tier_downgrade("pro", "pro"));
    assert!(!is_tier_downgrade("free", "mystery"));
    assert!(is_tier_downgrade("pro", "mystery"));
}

#[test]
fn tier_change_sources_have_names() {
    assert_eq!(TierChangeSource::UserUpgrade.as_str(), "user_upgrade");
    assert_eq!(TierChangeSource::UserDowngrade.as_str(), "user_downgrade");
    assert_eq!(TierChangeSource::AdminPanel.as_str(), "admin_panel");
    assert_eq!(TierChangeSource::StripeWebhook.as_str(), "stripe_webhook");
    assert_eq!(TierChangeSource::System.as_str(), "system");
}

use plexmcp_billing::admin::{
    admin_route, billing_interval_of, check_payment_method, validate_admin_change, AdminRoute,
    AdminTierChangeParams,
};
use plexmcp_billing::error::BillingError;
use plexmcp_billing::subscriptions::{
    is_scheduled_change, plan_scheduled_downgrade, subscription_update_error, validate_new_tier, Plan,
    SubscriptionTier, SubscriptionTierInfo, TierChangeOptions,
};
use plexmcp_billing::timeutil::Timestamp;

#[test]
fn test_plan_free() {
    let plan = Plan::free();
    assert_eq!(plan.tier, SubscriptionTier::Free);
    assert!(plan.stripe_price_id.is_empty()); // Free tier has no price
    assert_eq!(plan.monthly_requests, 1_000);
    assert_eq!(plan.max_mcps, 5);
    assert_eq!(plan.max_users, 1);
    assert_eq!(plan.max_api_keys, 5);
}

#[test]
fn test_plan_pro() {
    let plan = Plan::pro("price_pro_123");
    assert_eq!(plan.tier, SubscriptionTier::Pro);
    assert_eq!(plan.stripe_price_id, "price_pro_123");
    assert_eq!(plan.monthly_requests, 50_000);
    assert_eq!(plan.max_mcps, 20);
    assert_eq!(plan.max_users, 5);
    assert_eq!(plan.max_api_keys, 20);
}

#[test]
fn test_plan_team() {
    let plan = Plan::team("price_team_456");
    assert_eq!(plan.tier, SubscriptionTier::Team);
    assert_eq!(plan.stripe_price_id, "price_team_456");
    assert_eq!(plan.monthly_requests, 250_000);
    assert_eq!(plan.max_mcps, 50);
    assert_eq!(plan.max_users, u32::MAX); // Unlimited
    assert_eq!(plan.max_api_keys, 50);
}

#[test]
fn test_plan_enterprise() {
    let plan = Plan::enterprise("price_ent_789");
    assert_eq!(plan.tier, SubscriptionTier::Enterprise);
    assert_eq!(plan.stripe_price_id, "price_ent_789");
    assert_eq!(plan.monthly_requests, u64::MAX); // Unlimited
    assert_eq!(plan.max_mcps, u32::MAX); // Unlimited
    assert_eq!(plan.max_users, u32::MAX); // Unlimited
    assert_eq!(plan.max_api_keys, u32::MAX); // Unlimited
}

fn base_params(tier: &str) -> AdminTierChangeParams {
    AdminTierChangeParams {
        new_tier: tier.to_string(),
        trial_days: None,
        reason: "Test upgrade".to_string(),
        skip_payment_validation: false,
        billing_interval: None,
        custom_price_cents: None,
        subscription_start_date: None,
        payment_method: None,
        admin_user_id: None,
        downgrade_timing: None,
        refund_type: None,
    }
}

#[test]
fn test_admin_tier_change_params_defaults() {
    let params = AdminTierChangeParams {
        new_tier: "pro".to_string(),
        trial_days: None,
        reason: "Test upgrade".to_string(),
        skip_payment_validation: false,
        billing_interval: None,
        custom_price_cents: None,
        subscription_start_date: None,
        payment_method: None,
        admin_user_id: None,
        downgrade_timing: None,
        refund_type: None,
    };

    assert_eq!(params.new_tier, "pro");
    assert!(params.trial_days.is_none());
    assert!(!params.skip_payment_validation);
}

#[test]
fn test_admin_tier_change_params_with_trial() {
    let params = AdminTierChangeParams {
        new_tier: "team".to_string(),
        trial_days: Some(30),
        reason: "Enterprise trial".to_string(),
        skip_payment_validation: true,
        billing_interval: Some("annual".to_string()),
        custom_price_cents: None,
        subscription_start_date: None,
        payment_method: Some("trial".to_string()),
        admin_user_id: Some(uuid::Uuid::new_v4().as_u128()),
        downgrade_timing: None,
        refund_type: None,
    };

    assert_eq!(params.trial_days, Some(30));
    assert!(params.skip_payment_validation);
    assert_eq!(params.billing_interval.as_deref(), Some("annual"));
    assert_eq!(params.payment_method.as_deref(), Some("trial"));
}

#[test]
fn test_admin_tier_change_params_enterprise_custom_price() {
    let params = AdminTierChangeParams {
        new_tier: "enterprise".to_string(),
        trial_days: None,
        reason: "Custom enterprise deal".to_string(),
        skip_payment_validation: false,
        billing_interval: Some("annual".to_string()),
        custom_price_cents: Some(499900), // $4,999/year
        subscription_start_date: None,
        payment_method: Some("invoice".to_string()),
        admin_user_id: None,
        downgrade_timing: None,
        refund_type: None,
    };

    assert_eq!(params.custom_price_cents, Some(499900));
    assert_eq!(params.payment_method.as_deref(), Some("invoice"));
}

#[test]
fn test_billing_interval_parsing() {
    // Test default billing interval
    let params1 = AdminTierChangeParams {
        new_tier: "pro".to_string(),
        trial_days: None,
        reason: "Test".to_string(),
        skip_payment_validation: false,
        billing_interval: None,
        custom_price_cents: None,
        subscription_start_date: None,
        payment_method: None,
        admin_user_id: None,
        downgrade_timing: None,
        refund_type: None,
    };

    let interval = params1.billing_interval.as_deref().unwrap_or("monthly");
    assert_eq!(interval, "monthly");
    assert_eq!(billing_interval_of(&params1), "monthly");

    // Test explicit annual
    let params2 = AdminTierChangeParams {
        billing_interval: Some("annual".to_string()),
        ..params1.clone()
    };

    let interval = params2.billing_interval.as_deref().unwrap_or("monthly");
    assert_eq!(interval, "annual");
    assert_eq!(billing_interval_of(&params2), "annual");
}

#[test]
fn invalid_tier_names_are_refused() {
    assert!(validate_new_tier("team").is_ok());
    assert_eq!(
        validate_new_tier("gold"),
        Err(BillingError::InvalidTier(
            "Invalid tier 'gold'. Valid tiers are: free, pro, team, enterprise".to_string()
        ))
    );
    assert_eq!(
        validate_admin_change(&base_params("Pro")),
        Err(BillingError::InvalidTier(
            "Invalid tier 'Pro'. Must be one of: free, pro, team, enterprise".to_string()
        ))
    );
}

#[test]
fn downgrades_wait_for_period_end_by_default() {
    assert!(is_scheduled_change("team", "pro", None));
    assert!(!is_scheduled_change("team", "pro", Some("immediate")));
    assert!(!is_scheduled_change("pro", "team", None));
    assert!(!is_scheduled_change("pro", "team", Some("end_of_period")));
    let o = TierChangeOptions::user_downgrade();
    assert!(is_scheduled_change("Enterprise", "free", o.downgrade_timing.as_deref()));
}

#[test]
fn admin_changes_are_routed_by_tier_order() {
    let mut p = base_params("free");
    assert_eq!(admin_route(Some("team"), &p), AdminRoute::FreeTierDowngrade);
    assert_eq!(admin_route(None, &p), AdminRoute::SetFree);
    p.new_tier = "pro".to_string();
    assert_eq!(admin_route(Some("team"), &p), AdminRoute::ScheduledDowngrade);
    p.downgrade_timing = Some("immediate".to_string());
    assert_eq!(admin_route(Some("enterprise"), &p), AdminRoute::ImmediateDowngrade);
    assert_eq!(admin_route(Some("free"), &p), AdminRoute::Apply);
    assert_eq!(admin_route(Some("pro"), &p), AdminRoute::Apply);
}

#[test]
fn payment_method_needed_without_trial_or_invoice() {
    let mut p = base_params("pro");
    assert_eq!(check_payment_method(false, &p), Err(BillingError::PaymentMethodRequired));
    assert!(check_payment_method(true, &p).is_ok());
    p.payment_method = Some("invoice".to_string());
    assert!(check_payment_method(false, &p).is_ok());
    p.payment_method = None;
    p.trial_days = Some(0);
    assert!(check_payment_method(false, &p).is_ok());
}

#[test]
fn scheduling_a_downgrade_checks_direction() {
    let now = Timestamp::from_unix(1_700_000_000).unwrap();
    let info = |tier: Option<&str>| SubscriptionTierInfo {
        metadata_tier: tier.map(|t| t.to_string()),
        price_tier: None,
        current_period_end: 1_702_592_000,
    };
    let ok = plan_scheduled_downgrade(7, "pro", true, Some(info(Some("team"))), now).unwrap();
    assert_eq!(ok.current_tier, "team");
    assert_eq!(ok.new_tier, "pro");
    assert_eq!(ok.effective_date.unix(), 1_702_592_000);
    assert_eq!(
        plan_scheduled_downgrade(7, "team", true, Some(info(Some("pro"))), now).err(),
        Some(BillingError::InvalidTier(
            "Cannot schedule downgrade from pro to team - use upgrade flow instead".to_string()
        ))
    );
    assert_eq!(
        plan_scheduled_downgrade(7, "pro", false, Some(info(Some("team"))), now).err(),
        Some(BillingError::InvalidTier("pro".to_string()))
    );
    assert_eq!(
        plan_scheduled_downgrade(7, "free", false, None, now).err(),
        Some(BillingError::SubscriptionNotFound("00000000-0000-0000-0000-000000000007".to_string()))
    );
    assert_eq!(
        plan_scheduled_downgrade(7, "free", false, Some(info(None)), now).err(),
        Some(BillingError::InvalidTier(
            "Cannot determine current subscription tier. Please contact support.".to_string()
        ))
    );
}

#[test]
fn missing_payment_method_errors_are_recognized() {
    assert_eq!(
        subscription_update_error("This customer has no attached payment source".to_string()),
        BillingError::PaymentMethodRequired
    );
    assert_eq!(
        subscription_update_error("rate limited".to_string()),
        BillingError::StripeApi("rate limited".to_string())
    );
}

#[test]
fn preview_at_current_time_counts_days_and_totals() {
    // A period end in 2100 lies ahead of the clock: the preview exists and
    // totals both amounts.
    let end = 4_102_444_800; // 2100-01-01
    let p = proration_preview_now(Some("pro"), "team", Some(1500), Some(250), end).unwrap();
    assert_eq!(p.current_tier, "pro");
    assert_eq!(p.new_tier, "team");
    assert_eq!(p.proration_amount_cents, 1500);
    assert_eq!(p.overage_amount_cents, 250);
    assert_eq!(p.total_amount_cents, 1750);
    assert!(p.days_remaining > 0);
    assert!(p.description.starts_with("Upgrade from pro to team with "));
    // Amounts whose sum leaves i64 give no preview.
    assert!(proration_preview_now(None, "team", Some(i64::MAX), Some(1), end).is_none());
    let q = proration_preview_now(None, "team", None, None, end).unwrap();
    assert_eq!(q.current_tier, "unknown");
    assert_eq!(q.total_amount_cents, 0);
}

#[test]
fn test_history_is_kept_by_tier() {
    assert_eq!(plexmcp_billing::subscriptions::test_history_retention_days("free"), 7);
    assert_eq!(plexmcp_billing::subscriptions::test_history_retention_days("starter"), 30);
    assert_eq!(plexmcp_billing::subscriptions::test_history_retention_days("pro"), 90);
    assert_eq!(plexmcp_billing::subscriptions::test_history_retention_days("team"), 365);
    assert_eq!(plexmcp_billing::subscriptions::test_history_retention_days("enterprise"), 365);
}
