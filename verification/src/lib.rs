//! Billing rules of the PlexMCP gateway: subscription tiers and tier changes,
//! proration, refunds, tax identifiers, invariant summaries, overage pricing
//! and Stripe webhook verification and routing.

use vstd::prelude::*;

pub mod error;
pub mod ids;
pub mod metadata;
pub mod text;
pub mod timeutil;
pub mod tax;
pub mod invariants;
pub mod subscriptions;
pub mod admin;
pub mod reactivation;
pub mod pause;
pub mod refund;
pub mod overage;
pub mod webhooks;
pub mod stripe_ids;
