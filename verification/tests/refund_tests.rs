use plexmcp_billing::error::BillingError;
use plexmcp_billing::refund::{
    calculate_prorated_amount, completed_refund_result, prorated_amount_at, refundable_charge, PaidInvoice,
};
use plexmcp_billing::timeutil::Timestamp;

const DAY: i64 = 86_400;

fn now_secs() -> i64 {
    time::OffsetDateTime::now_utc().unix_timestamp()
}

fn ts(secs: i64) -> Timestamp {
    Timestamp::from_unix(secs).unwrap()
}

#[test]
fn test_calculate_prorated_amount() {
    // 30-day month, 10+ days remaining = ~1/3 refund
    let start = ts(now_secs() - 20 * DAY);
    let end = ts(now_secs() + 11 * DAY);

    let refund = calculate_prorated_amount(9000, start, end);
    assert!(
        (2900..=3300).contains(&refund),
        "Expected refund between 2900-3300, got {}",
        refund
    );
}

#[test]
fn test_calculate_prorated_amount_zero_remaining() {
    // Period already ended
    let start = ts(now_secs() - 30 * DAY);
    let end = ts(now_secs() - DAY);

    let refund = calculate_prorated_amount(9000, start, end);
    assert_eq!(refund, 0);
}

#[test]
fn test_calculate_prorated_amount_full_period() {
    // Full period remaining (just started)
    let start_secs = now_secs() - 1;
    let start = ts(start_secs);
    let end = ts(start_secs + 30 * DAY);

    let refund = calculate_prorated_amount(9000, start, end);
    assert!(refund >= 8700, "Expected refund >= 8700, got {}", refund);
}

#[test]
fn prorated_amount_exact_values() {
    let start = ts(1_700_000_000);
    let end = ts(1_700_000_000 + 30 * DAY);
    // 10 whole days left of 30: a third, rounded down
    assert_eq!(prorated_amount_at(9000, start, end, ts(1_700_000_000 + 20 * DAY)), 3000);
    assert_eq!(prorated_amount_at(1000, start, end, ts(1_700_000_000 + 20 * DAY - 1)), 333);
    // period over
    assert_eq!(prorated_amount_at(9000, start, end, end), 0);
    // period shorter than a day
    assert_eq!(prorated_amount_at(9000, start, ts(1_700_000_000 + 3600), start), 0);
}

#[test]
fn refundable_charge_window() {
    let now = ts(1_700_000_000);
    let invoice = |created: Option<i64>, charge: Option<&str>| PaidInvoice {
        invoice_id: "in_1".to_string(),
        charge_id: charge.map(|c| c.to_string()),
        created,
        period_start: Some(1_699_000_000),
        period_end: None,
        amount_paid: Some(2900),
    };
    let ok = refundable_charge(Some(invoice(Some(1_700_000_000 - 90 * DAY), Some("ch_1"))), now).unwrap();
    assert_eq!(ok.charge_id, "ch_1");
    assert_eq!(ok.amount_cents, 2900);
    assert_eq!(ok.period_start.unix(), 1_699_000_000);
    assert_eq!(ok.period_end.unix(), 1_700_000_000);
    assert_eq!(
        refundable_charge(Some(invoice(Some(1_700_000_000 - 91 * DAY), Some("ch_1"))), now).err(),
        Some(BillingError::ChargeExpiredForRefund)
    );
    assert_eq!(refundable_charge(None, now).err(), Some(BillingError::NoRefundableCharge));
    assert_eq!(refundable_charge(Some(invoice(Some(1), None)), now).err(), Some(BillingError::NoRefundableCharge));
    assert_eq!(
        refundable_charge(Some(invoice(Some(i64::MAX), Some("ch_1"))), now).err(),
        Some(BillingError::RefundFailed("Invalid charge timestamp".to_string()))
    );
}

#[test]
fn completed_refunds_are_refunds() {
    let r = completed_refund_result("re_1".to_string(), "ch_9", 1200);
    assert_eq!(r.stripe_charge_id, "ch_9");
    assert_eq!(r.amount_cents, 1200);
    assert_eq!(r.refund_type, "refund");
}
