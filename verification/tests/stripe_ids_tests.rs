use plexmcp_billing::error::BillingError;
use plexmcp_billing::stripe_ids::{
    checkout_subscription_id, disputed_charge_id, refund_charge_id, refund_subscription_id, stripe_customer_id,
    stripe_subscription_id, stripe_tax_id_id,
};

#[test]
fn charge_ids_need_a_charge_prefix() {
    assert!(refund_charge_id("ch_123").is_ok());
    assert!(refund_charge_id("py_123").is_ok());
    match refund_charge_id("zz_123") {
        Err(BillingError::RefundFailed(m)) => assert_eq!(
            m,
            "Invalid charge ID: invalid `ChargeId`, expected id to start with \"ch_\" or \"py_\""
        ),
        _ => panic!("expected a refund failure"),
    }
    assert!(disputed_charge_id("ch_1").is_some());
    assert!(disputed_charge_id("cus_1").is_none());
    assert_eq!(refund_charge_id("ch_123").unwrap().as_str(), "ch_123");
}

#[test]
fn customer_ids_need_the_customer_prefix() {
    assert_eq!(stripe_customer_id("cus_abc").unwrap().as_str(), "cus_abc");
    match stripe_customer_id("ch_abc") {
        Err(BillingError::StripeApi(m)) => {
            assert_eq!(m, "Invalid customer ID: invalid `CustomerId`, expected id to start with \"cus_\"")
        }
        _ => panic!("expected a Stripe API error"),
    }
}

#[test]
fn subscription_and_tax_ids_need_their_prefixes() {
    assert_eq!(refund_subscription_id("sub_1").unwrap().as_str(), "sub_1");
    match refund_subscription_id("in_1") {
        Err(BillingError::RefundFailed(m)) => assert_eq!(
            m,
            "Invalid subscription ID: invalid `SubscriptionId`, expected id to start with \"sub_\""
        ),
        _ => panic!("expected a refund failure"),
    }
    match stripe_subscription_id("x") {
        Err(BillingError::StripeApi(m)) => assert!(m.starts_with("Invalid subscription ID: ")),
        _ => panic!("expected a Stripe API error"),
    }
    match checkout_subscription_id("bad") {
        Err(e) => assert_eq!(e, BillingError::SubscriptionNotFound("bad".to_string())),
        Ok(_) => panic!("expected SubscriptionNotFound"),
    }
    assert!(stripe_tax_id_id("txi_1").is_ok());
    assert!(stripe_tax_id_id("atxi_1").is_ok());
    match stripe_tax_id_id("tx_1") {
        Err(BillingError::StripeApi(m)) => assert_eq!(
            m,
            "Invalid tax ID: invalid `TaxIdId`, expected id to start with \"txi_\" or \"atxi_\""
        ),
        _ => panic!("expected a Stripe API error"),
    }
}
