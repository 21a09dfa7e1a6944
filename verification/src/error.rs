//! Errors of the billing rules.

use vstd::prelude::*;

verus! {

/// Why a billing operation was refused or failed.
#[derive(Debug, Clone, PartialEq, Eq)]
pub enum BillingError {
    /// The tier name, or a tier change, is not valid
    InvalidTier(String),
    /// A record was not found
    NotFound(String),
    /// Another process changed the record first
    ConcurrentModification(String),
    /// A database operation failed
    Database(String),
    /// A Stripe API call failed
    StripeApi(String),
    /// The customer has no payment method on file
    PaymentMethodRequired,
    /// An internal inconsistency
    Internal(String),
    /// The organization has no subscription
    SubscriptionNotFound(String),
    /// A configuration value is missing
    Config(String),
    /// Outstanding overages are larger than the credit left on a cancelled subscription
    OveragesExceedCredit { overage_cents: i64, credit_cents: i64, pay_first_url: String },
    /// The reactivation must go through a checkout session
    UseCheckoutFlow {
        checkout_url: Option<String>,
        credit_cents: i64,
        coupon_id: Option<String>,
        tier: String,
        billing_interval: String,
        customer_id: String,
    },
    /// An amount is not acceptable
    InvalidAmount(String),
    /// The organization has no cancelled subscription
    NoCancelledSubscription(String),
    /// The organization has no Stripe customer
    NoCustomer,
    /// No organization or owner matches the customer
    CustomerNotFound(String),
    /// A refund could not be issued
    RefundFailed(String),
    /// No paid charge can be refunded
    NoRefundableCharge,
    /// The charge is older than Stripe's refund window
    ChargeExpiredForRefund,
    /// The input is not acceptable
    InvalidInput(String),
    /// The webhook signature does not verify
    WebhookSignatureInvalid,
    /// The webhook carries an object of an unexpected kind
    WebhookEventNotSupported(String),
    /// The operation needs an active subscription
    SubscriptionRequired(String),
}

} // verus!
