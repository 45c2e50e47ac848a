//! Reconciles payment-provider billing events with internal subscription plans.
//!
//! The library holds the decisions: which tier a charged amount buys, what a
//! checkout or cancellation request carries, and how a verified webhook event
//! turns into store writes and side effects. The caller performs the effects.

pub mod catalog;
pub mod checkout;
pub mod config;
pub mod error;
pub mod ids;
pub mod models;
pub mod subscription;
pub mod webhook;

pub use catalog::{resolve_tier, PlanTier};
pub use checkout::{checkout_outcome, checkout_request, CheckoutMode, CheckoutRequest};
pub use config::BillingConfig;
pub use error::BillingError;
pub use models::{StripeCustomer, UserPlan};
pub use subscription::{cancel_outcome, cancel_request, CancelRequest};
pub use webhook::{advance, begin, Reply, WebhookAction, WebhookEvent, WebhookStage};
