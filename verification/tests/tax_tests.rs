use plexmcp_billing::error::BillingError;
use plexmcp_billing::tax::{
    deletes_at_stripe, is_local, local_tax_id, tax_customer, tax_id_check, tax_totals, verification_status_text,
    TaxIdCheck, TaxIdType, TaxIdVerificationStatus, TaxRow,
};

#[test]
fn tax_id_types_round_trip() {
    for t in [
        TaxIdType::EuVat, TaxIdType::GbVat, TaxIdType::UsEin, TaxIdType::AuAbn,
        TaxIdType::CaGstHst, TaxIdType::BrCnpj, TaxIdType::InGst,
    ] {
        assert_eq!(TaxIdType::from_stripe_type(t.as_stripe_type()), t);
    }
    assert_eq!(TaxIdType::Other.as_stripe_type(), "eu_vat");
    assert_eq!(TaxIdType::from_stripe_type("xx_tin"), TaxIdType::Other);
}

#[test]
fn local_tax_ids() {
    let id = local_tax_id(1);
    assert_eq!(id, "txi_local_00000000-0000-0000-0000-000000000001");
    assert!(is_local(&id));
    assert!(!is_local("txi_123"));
    assert!(!deletes_at_stripe(&Some(id.clone())));
    assert!(deletes_at_stripe(&Some("txi_123".to_string())));
    assert!(!deletes_at_stripe(&None));
    assert_eq!(tax_id_check(Some(Some(id))), Ok(TaxIdCheck::LocalOnly));
    assert_eq!(tax_id_check(None), Err(BillingError::NotFound("Tax ID not found".to_string())));
    assert_eq!(
        tax_id_check(Some(None)),
        Err(BillingError::InvalidInput("Tax ID not linked to Stripe".to_string()))
    );
    let lookup = TaxIdCheck::Lookup("txi_9".to_string());
    assert_eq!(verification_status_text(&lookup, Some(TaxIdVerificationStatus::Verified)), "Verified");
    assert_eq!(verification_status_text(&lookup, None), "unknown");
    assert_eq!(verification_status_text(&TaxIdCheck::LocalOnly, None), "local_only");
}

#[test]
fn tax_customer_must_be_present() {
    assert_eq!(tax_customer(Some("cus_1".to_string())), Ok("cus_1".to_string()));
    assert_eq!(tax_customer(Some(String::new())), Err(BillingError::NoCustomer));
    assert_eq!(tax_customer(None), Err(BillingError::NoCustomer));
}

#[test]
fn tax_summary_groups_by_jurisdiction() {
    let row = |j: &str, taxable: i64, tax: i64| TaxRow {
        jurisdiction: j.to_string(),
        taxable_amount_cents: taxable,
        tax_amount_cents: tax,
    };
    let rows = vec![row("DE", 1000, 190), row("FR", 2000, 400), row("DE", 500, 95), row("default", 10, 0)];
    let t = tax_totals(&rows);
    assert_eq!(t.total_taxable_amount_cents, 3510);
    assert_eq!(t.total_tax_collected_cents, 685);
    assert_eq!(t.breakdown.len(), 3);
    assert_eq!(t.breakdown[0].jurisdiction, "DE");
    assert_eq!(t.breakdown[0].first_row, 0);
    assert_eq!(t.breakdown[0].taxable_amount_cents, 1500);
    assert_eq!(t.breakdown[0].tax_amount_cents, 285);
    assert_eq!(t.breakdown[1].jurisdiction, "FR");
    assert_eq!(t.breakdown[2].first_row, 3);
    let taxable: i64 = t.breakdown.iter().map(|b| b.taxable_amount_cents).sum();
    let tax: i64 = t.breakdown.iter().map(|b| b.tax_amount_cents).sum();
    assert_eq!(taxable, t.total_taxable_amount_cents);
    assert_eq!(tax, t.total_tax_collected_cents);
    let empty = tax_totals(&Vec::new());
    assert_eq!(empty.total_taxable_amount_cents, 0);
    assert!(empty.breakdown.is_empty());
}
