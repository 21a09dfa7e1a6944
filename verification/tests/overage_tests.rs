use plexmcp_billing::overage::OverageRates;

// BILL-O01: 50,000 requests / 50K limit - no charge
#[test]
fn test_no_overage_at_exact_limit() {
    let rates = OverageRates::default();
    let limit: i64 = 50_000;
    let usage: i64 = 50_000;

    // No overage when at exact limit
    let overage = usage - limit;
    let charge = rates.calculate_request_overage_cents(overage);
    assert_eq!(charge, 0, "No charge when at exact limit");
}

// BILL-O02: 50,001 requests - 1 overage, should be 1 batch ($0.50)
#[test]
fn test_one_over_limit_charges_one_batch() {
    let rates = OverageRates::default();
    let overage: i64 = 1; // Just 1 request over

    let charge = rates.calculate_request_overage_cents(overage);
    assert_eq!(charge, 50, "1 overage request should cost $0.50 (1 batch)");
}

// BILL-O03: 1,000 overage - exactly 1 batch
#[test]
fn test_exactly_one_batch() {
    let rates = OverageRates::default();
    let overage: i64 = 1_000;

    let charge = rates.calculate_request_overage_cents(overage);
    assert_eq!(charge, 50, "Exactly 1000 overage = 1 batch = $0.50");
}

// BILL-O04: 1,001 overage - should be 2 batches
#[test]
fn test_one_over_batch_is_two_batches() {
    let rates = OverageRates::default();
    let overage: i64 = 1_001;

    let charge = rates.calculate_request_overage_cents(overage);
    assert_eq!(charge, 100, "1001 overage = 2 batches = $1.00");
}

// Batch size validation
#[test]
fn test_batch_size_is_1000() {
    let rates = OverageRates::default();
    assert_eq!(rates.requests_batch_size, 1000, "Batch size should be 1000");
}

// Zero overage - no charge
#[test]
fn test_zero_overage_no_charge() {
    let rates = OverageRates::default();
    let charge = rates.calculate_request_overage_cents(0);
    assert_eq!(charge, 0, "Zero overage should be no charge");
}

// Negative overage (under limit) - no charge
#[test]
fn test_negative_overage_no_charge() {
    let rates = OverageRates::default();
    let charge = rates.calculate_request_overage_cents(-100);
    assert_eq!(charge, 0, "Negative overage should be no charge");
}

#[test]
fn overage_charge_grows_with_usage() {
    let rates = OverageRates::default();
    assert_eq!(rates.calculate_request_overage_cents(2_000), 100);
    assert_eq!(rates.calculate_request_overage_cents(2_001), 150);
    assert!(rates.calculate_request_overage_cents(999) <= rates.calculate_request_overage_cents(1_000));
    let custom = OverageRates { requests_per_1k_cents: 25, requests_batch_size: 1000 };
    assert_eq!(custom.calculate_request_overage_cents(1_500), 50);
}
