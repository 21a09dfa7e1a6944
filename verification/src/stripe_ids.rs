//! Stripe object IDs: which texts `async-stripe` accepts as a charge,
//! customer, subscription or tax ID, and the errors the billing rules give
//! for those it refuses.

use vstd::prelude::*;
use crate::error::BillingError;

verus! {

/// A Stripe charge ID.
#[verifier::external_type_specification]
#[verifier::external_body]
pub struct ExChargeId(stripe::ChargeId);

/// A Stripe customer ID.
#[verifier::external_type_specification]
#[verifier::external_body]
pub struct ExCustomerId(stripe::CustomerId);

/// A Stripe subscription ID.
#[verifier::external_type_specification]
#[verifier::external_body]
pub struct ExSubscriptionId(stripe::SubscriptionId);

/// A Stripe tax ID object's ID.
#[verifier::external_type_specification]
#[verifier::external_body]
pub struct ExTaxIdId(stripe::TaxIdId);

/// Whether `s` begins with `p`.
pub open spec fn starts_with(s: Seq<char>, p: Seq<char>) -> bool {
    p.len() <= s.len() && s.subrange(0, p.len() as int) == p
}

/// Whether `async-stripe` accepts a text as a charge ID: it starts with
/// `ch_` or `py_`.
pub open spec fn charge_id_accepted(s: Seq<char>) -> bool {
    starts_with(s, "ch_"@) || starts_with(s, "py_"@)
}

/// Whether `async-stripe` accepts a text as a customer ID: it starts with `cus_`.
pub open spec fn customer_id_accepted(s: Seq<char>) -> bool {
    starts_with(s, "cus_"@)
}

/// Whether `async-stripe` accepts a text as a subscription ID: it starts
/// with `sub_`.
pub open spec fn subscription_id_accepted(s: Seq<char>) -> bool {
    starts_with(s, "sub_"@)
}

/// Whether `async-stripe` accepts a text as a tax ID object's ID: it starts
/// with `txi_` or `atxi_`.
pub open spec fn tax_id_id_accepted(s: Seq<char>) -> bool {
    starts_with(s, "txi_"@) || starts_with(s, "atxi_"@)
}

/// `s.parse::<stripe::ChargeId>()`, its error as its `Display` text. The
/// crate's `FromStr` accepts exactly the texts that start with `ch_` or
/// `py_` and keeps the text as the ID; what the ID holds is not stated here
/// (the type is opaque to these contracts).
#[verifier::external_body]
fn parse_charge_id(s: &str) -> (r: Result<stripe::ChargeId, String>)
    ensures
        r is Ok <==> charge_id_accepted(s@),
        r matches Err(e) ==> e@ == "invalid `ChargeId`, expected id to start with \"ch_\" or \"py_\""@,
{
    match s.parse::<stripe::ChargeId>() {
        Ok(id) => Ok(id),
        Err(e) => Err(e.to_string()),
    }
}

/// `s.parse::<stripe::CustomerId>()`, its error as its `Display` text. The
/// crate's `FromStr` accepts exactly the texts that start with `cus_` and
/// keeps the text as the ID; what the ID holds is not stated here.
#[verifier::external_body]
fn parse_customer_id(s: &str) -> (r: Result<stripe::CustomerId, String>)
    ensures
        r is Ok <==> customer_id_accepted(s@),
        r matches Err(e) ==> e@ == "invalid `CustomerId`, expected id to start with \"cus_\""@,
{
    match s.parse::<stripe::CustomerId>() {
        Ok(id) => Ok(id),
        Err(e) => Err(e.to_string()),
    }
}

/// `s.parse::<stripe::SubscriptionId>()`, its error as its `Display` text.
/// The crate's `FromStr` accepts exactly the texts that start with `sub_`
/// and keeps the text as the ID; what the ID holds is not stated here.
#[verifier::external_body]
fn parse_subscription_id(s: &str) -> (r: Result<stripe::SubscriptionId, String>)
    ensures
        r is Ok <==> subscription_id_accepted(s@),
        r matches Err(e) ==> e@ == "invalid `SubscriptionId`, expected id to start with \"sub_\""@,
{
    match s.parse::<stripe::SubscriptionId>() {
        Ok(id) => Ok(id),
        Err(e) => Err(e.to_string()),
    }
}

/// `s.parse::<stripe::TaxIdId>()`, its error as its `Display` text. The
/// crate's `FromStr` accepts exactly the texts that start with `txi_` or
/// `atxi_` and keeps the text as the ID; what the ID holds is not stated here.
#[verifier::external_body]
fn parse_tax_id_id(s: &str) -> (r: Result<stripe::TaxIdId, String>)
    ensures
        r is Ok <==> tax_id_id_accepted(s@),
        r matches Err(e) ==> e@ == "invalid `TaxIdId`, expected id to start with \"txi_\" or \"atxi_\""@,
{
    match s.parse::<stripe::TaxIdId>() {
        Ok(id) => Ok(id),
        Err(e) => Err(e.to_string()),
    }
}

/// The subscription whose invoices a refund looks up: a refund failure
/// (`Invalid subscription ID: …`) when the text is no subscription ID.
pub fn refund_subscription_id(subscription_id: &str) -> (r: Result<stripe::SubscriptionId, BillingError>)
    ensures
        r is Ok <==> subscription_id_accepted(subscription_id@),
        r is Err ==> (r matches Err(BillingError::RefundFailed(m)) && m@ == "Invalid subscription ID: "@
            + "invalid `SubscriptionId`, expected id to start with \"sub_\""@),
{
    match parse_subscription_id(subscription_id) {
        Ok(id) => Ok(id),
        Err(e) => {
            let mut m = "Invalid subscription ID: ".to_owned();
            m.append(e.as_str());
            Err(BillingError::RefundFailed(m))
        },
    }
}

/// A recorded subscription to address at Stripe: a Stripe API error
/// (`Invalid subscription ID: …`) when the text is no subscription ID.
pub fn stripe_subscription_id(subscription_id: &str) -> (r: Result<stripe::SubscriptionId, BillingError>)
    ensures
        r is Ok <==> subscription_id_accepted(subscription_id@),
        r is Err ==> (r matches Err(BillingError::StripeApi(m)) && m@ == "Invalid subscription ID: "@
            + "invalid `SubscriptionId`, expected id to start with \"sub_\""@),
{
    match parse_subscription_id(subscription_id) {
        Ok(id) => Ok(id),
        Err(e) => {
            let mut m = "Invalid subscription ID: ".to_owned();
            m.append(e.as_str());
            Err(BillingError::StripeApi(m))
        },
    }
}

/// The subscription a completed checkout created: `SubscriptionNotFound`
/// with the text when it is no subscription ID.
pub fn checkout_subscription_id(subscription_id: &str) -> (r: Result<stripe::SubscriptionId, BillingError>)
    ensures
        r is Ok <==> subscription_id_accepted(subscription_id@),
        r is Err ==> (r matches Err(BillingError::SubscriptionNotFound(m)) && m@ == subscription_id@),
{
    match parse_subscription_id(subscription_id) {
        Ok(id) => Ok(id),
        Err(_) => Err(BillingError::SubscriptionNotFound(subscription_id.to_owned())),
    }
}

/// A tax ID object to address at Stripe: a Stripe API error
/// (`Invalid tax ID: …`) when the text is no tax ID object's ID.
pub fn stripe_tax_id_id(tax_id: &str) -> (r: Result<stripe::TaxIdId, BillingError>)
    ensures
        r is Ok <==> tax_id_id_accepted(tax_id@),
        r is Err ==> (r matches Err(BillingError::StripeApi(m)) && m@ == "Invalid tax ID: "@
            + "invalid `TaxIdId`, expected id to start with \"txi_\" or \"atxi_\""@),
{
    match parse_tax_id_id(tax_id) {
        Ok(id) => Ok(id),
        Err(e) => {
            let mut m = "Invalid tax ID: ".to_owned();
            m.append(e.as_str());
            Err(BillingError::StripeApi(m))
        },
    }
}

/// The charge a refund is issued against: a refund failure
/// (`Invalid charge ID: …`) when the text is no charge ID.
pub fn refund_charge_id(charge_id: &str) -> (r: Result<stripe::ChargeId, BillingError>)
    ensures
        r is Ok <==> charge_id_accepted(charge_id@),
        r is Err ==> (r matches Err(BillingError::RefundFailed(m)) && m@ == "Invalid charge ID: "@
            + "invalid `ChargeId`, expected id to start with \"ch_\" or \"py_\""@),
{
    match parse_charge_id(charge_id) {
        Ok(id) => Ok(id),
        Err(e) => {
            let mut m = "Invalid charge ID: ".to_owned();
            m.append(e.as_str());
            Err(BillingError::RefundFailed(m))
        },
    }
}

/// The disputed charge to look up: none (the dispute is passed over) when
/// the text is no charge ID.
pub fn disputed_charge_id(charge_id: &str) -> (r: Option<stripe::ChargeId>)
    ensures
        r is Some <==> charge_id_accepted(charge_id@),
{
    match parse_charge_id(charge_id) {
        Ok(id) => Some(id),
        Err(_) => None,
    }
}

/// A customer to address at Stripe: a Stripe API error
/// (`Invalid customer ID: …`) when the text is no customer ID.
pub fn stripe_customer_id(customer_id: &str) -> (r: Result<stripe::CustomerId, BillingError>)
    ensures
        r is Ok <==> customer_id_accepted(customer_id@),
        r is Err ==> (r matches Err(BillingError::StripeApi(m)) && m@ == "Invalid customer ID: "@
            + "invalid `CustomerId`, expected id to start with \"cus_\""@),
{
    match parse_customer_id(customer_id) {
        Ok(id) => Ok(id),
        Err(e) => {
            let mut m = "Invalid customer ID: ".to_owned();
            m.append(e.as_str());
            Err(BillingError::StripeApi(m))
        },
    }
}

} // verus!
