use hmac::{Hmac, Mac};
use sha2::Sha256;

use plexmcp_billing::error::BillingError;
use plexmcp_billing::metadata::Metadata;
use plexmcp_billing::webhooks::{
    charge_refund_record, checkout_invoice_amount, classify_checkout, classify_event_type, customer_org_link,
    dispute_reason, duplicate_reason, line_item_unit_amount, org_id_from_metadata, parse_signature_header,
    pay_now_amount, payment_failure_escalation, processing_record, reset_outcome, select_addon_item,
    trial_days_remaining, upcoming_invoice_notice, verify_event, verify_signature_at, verify_webhook_signature, CheckoutAction,
    PaymentFailureEscalation, StripeEventKind,
};

fn sign(payload: &str, key: &str, t: i64) -> String {
    let mut mac = Hmac::<Sha256>::new_from_slice(key.as_bytes()).unwrap();
    mac.update(format!("{}.{}", t, payload).as_bytes());
    hex::encode(mac.finalize().into_bytes())
}

#[test]
fn signed_header_verifies_within_tolerance() {
    let payload = r#"{"id":"evt_1","type":"invoice.paid"}"#;
    let t = 1_700_000_000;
    let header = format!("t={},v1={}", t, sign(payload, "abc123", t));
    assert_eq!(verify_signature_at(payload, &header, "whsec_abc123", t + 300), Ok(()));
    assert_eq!(verify_signature_at(payload, &header, "whsec_abc123", t - 300), Ok(()));
    assert_eq!(verify_signature_at(payload, &header, "abc123", t), Ok(()));
    assert_eq!(
        verify_signature_at(payload, &header, "whsec_abc123", t + 301),
        Err(BillingError::WebhookSignatureInvalid)
    );
    assert_eq!(
        verify_signature_at("tampered", &header, "whsec_abc123", t),
        Err(BillingError::WebhookSignatureInvalid)
    );
    assert_eq!(
        verify_signature_at(payload, &header, "whsec_other", t),
        Err(BillingError::WebhookSignatureInvalid)
    );
}

#[test]
fn signature_at_current_time_verifies() {
    let payload = "{}";
    let t = time::OffsetDateTime::now_utc().unix_timestamp();
    let header = format!("t={},v1={}", t, sign(payload, "k", t));
    assert_eq!(verify_webhook_signature(payload, &header, "whsec_k"), Ok(()));
    let old = format!("t={},v1={}", t - 3600, sign(payload, "k", t - 3600));
    assert_eq!(verify_webhook_signature(payload, &old, "whsec_k"), Err(BillingError::WebhookSignatureInvalid));
}

#[test]
fn header_fields_are_read() {
    let (t, v1) = parse_signature_header("t=12,v0=zz,v1=abc");
    assert_eq!(t, Some(12));
    assert_eq!(v1.map(|v| v.into_iter().collect::<String>()), Some("abc".to_string()));
    let (t, v1) = parse_signature_header("v1=abc");
    assert_eq!(t, None);
    assert!(v1.is_some());
    assert_eq!(verify_signature_at("{}", "v1=abc", "k", 0), Err(BillingError::WebhookSignatureInvalid));
}

#[test]
fn event_types_map_to_handlers() {
    assert_eq!(classify_event_type("charge.dispute.created"), StripeEventKind::ChargeDisputeCreated);
    assert_eq!(classify_event_type("customer.deleted"), StripeEventKind::CustomerDeleted);
    assert_eq!(classify_event_type("invoice.upcoming"), StripeEventKind::InvoiceUpcoming);
}

#[test]
fn duplicate_and_processing_records() {
    assert_eq!(duplicate_reason(Some("success")), "already processed successfully");
    assert_eq!(duplicate_reason(Some("processing")), "currently being processed by another worker");
    assert_eq!(duplicate_reason(Some("error")), "exists with another status");
    assert_eq!(duplicate_reason(None), "unknown (race condition?)");
    assert_eq!(processing_record(None), ("success".to_string(), None));
    assert_eq!(processing_record(Some("boom".to_string())), ("error".to_string(), Some("boom".to_string())));
}

#[test]
fn org_ids_come_from_metadata() {
    let mut m = Metadata::new();
    assert_eq!(
        org_id_from_metadata(&m),
        Err(BillingError::Internal("org_id not found in metadata".to_string()))
    );
    m.insert("org_id".to_string(), "00000000-0000-0000-0000-00000000002a".to_string());
    assert_eq!(org_id_from_metadata(&m), Ok(42));
    assert_eq!(customer_org_link(Some(&m)), Some(42));
    m.insert("org_id".to_string(), "not-a-uuid".to_string());
    assert!(org_id_from_metadata(&m).is_err());
    assert_eq!(customer_org_link(Some(&m)), None);
}

#[test]
fn checkout_sessions_are_classified() {
    assert_eq!(classify_checkout(None), Ok(CheckoutAction::Nothing));
    let mut m = Metadata::new();
    m.insert("org_id".to_string(), "00000000-0000-0000-0000-000000000001".to_string());
    assert_eq!(classify_checkout(Some(&m)), Ok(CheckoutAction::Subscription { org_id: 1 }));
    m.insert("checkout_type".to_string(), "upgrade_payment".to_string());
    m.insert("new_tier".to_string(), "team".to_string());
    m.insert("overage_cents".to_string(), "250".to_string());
    assert_eq!(
        classify_checkout(Some(&m)),
        Ok(CheckoutAction::UpgradePayment {
            org_id: 1,
            new_tier: "team".to_string(),
            billing_interval: "monthly".to_string(),
            overage_cents: 250,
        })
    );
    m.insert("checkout_type".to_string(), "addon".to_string());
    m.insert("addon_type".to_string(), "extra_mcps".to_string());
    m.insert("quantity".to_string(), "x".to_string());
    assert_eq!(
        classify_checkout(Some(&m)),
        Ok(CheckoutAction::Addon { org_id: 1, addon_type: "extra_mcps".to_string(), quantity: 1 })
    );
    m.insert("checkout_type".to_string(), "overage_payment".to_string());
    assert_eq!(classify_checkout(Some(&m)), Ok(CheckoutAction::OveragePayment { org_id: 1 }));
    m.insert("org_id".to_string(), "bad".to_string());
    assert!(matches!(classify_checkout(Some(&m)), Err(BillingError::Internal(msg)) if msg.starts_with("Invalid org_id: ")));
}

#[test]
fn addon_items_are_found() {
    let items = vec![Some("price_base".to_string()), None, Some("price_addon".to_string()), Some("price_x".to_string())];
    assert_eq!(select_addon_item(&items, Some("price_addon")), Some(2));
    assert_eq!(select_addon_item(&items, Some("price_missing")), Some(3));
    assert_eq!(select_addon_item(&items, None), Some(3));
    assert_eq!(select_addon_item(&Vec::new(), Some("price_addon")), None);
}

#[test]
fn invoice_amounts() {
    assert_eq!(line_item_unit_amount(Some(Some(700)), 2100, Some(3)), 700);
    assert_eq!(line_item_unit_amount(Some(None), 2100, Some(3)), 0);
    assert_eq!(line_item_unit_amount(None, 2100, Some(3)), 700);
    assert_eq!(line_item_unit_amount(None, -2101, Some(2)), -1050);
    assert_eq!(line_item_unit_amount(None, 2100, Some(0)), 2100);
    assert_eq!(checkout_invoice_amount(Some(4900)), (4900, true));
    assert_eq!(checkout_invoice_amount(None), (0, false));
    assert_eq!(pay_now_amount(Some(1234)), 1234);
    assert_eq!(pay_now_amount(None), 0);
}

#[test]
fn failed_payments_escalate() {
    assert_eq!(payment_failure_escalation(None), (0, PaymentFailureEscalation::Standard));
    assert_eq!(payment_failure_escalation(Some(3)).1, PaymentFailureEscalation::Urgent);
    assert_eq!(payment_failure_escalation(Some(4)).1, PaymentFailureEscalation::FinalWarning);
}

#[test]
fn upcoming_invoice_totals() {
    let n = upcoming_invoice_notice(Some(2900), Some(150));
    assert_eq!(n.total_expected_cents, 3050);
    assert!(n.send_notice);
    assert!(!upcoming_invoice_notice(None, None).send_notice);
}

#[test]
fn refunds_and_disputes() {
    let r = charge_refund_record(500, 500);
    assert!(r.is_full_refund);
    assert_eq!(r.refund_kind, "full");
    assert_eq!(charge_refund_record(100, 500).refund_kind, "partial");
    assert_eq!(dispute_reason(""), "unknown");
    assert_eq!(dispute_reason("fraudulent"), "fraudulent");
    assert_eq!(trial_days_remaining(Some(10 * 86_400 + 5), 0), 10);
    assert_eq!(trial_days_remaining(Some(100), 0), 1);
    assert_eq!(trial_days_remaining(None, 0), 3);
    assert!(reset_outcome(1, "evt").is_ok());
    assert_eq!(
        reset_outcome(0, "evt_9"),
        Err(BillingError::NotFound("Webhook evt_9 not found or not in resettable state".to_string()))
    );
}

#[test]
fn stripe_accepted_deliveries_pass_without_the_manual_check() {
    assert_eq!(verify_event(true, "{}", "garbage", "whsec_x"), Ok(()));
    assert_eq!(verify_event(false, "{}", "garbage", "whsec_x"), Err(BillingError::WebhookSignatureInvalid));
}
