use vstd::prelude::*;

use crate::config::BillingConfig;
use crate::error::BillingError;
use crate::ids::{customer_prefix, has_prefix, parse_customer_id};
use crate::models::StripeCustomer;

verus! {

/// How a hosted checkout session charges the payer.
#[derive(Clone, Copy, Debug, PartialEq, Eq, Structural)]
pub enum CheckoutMode {
    /// A single payment.
    Payment,
    /// Saving payment details for later.
    Setup,
    /// A recurring subscription.
    Subscription,
}

/// What a checkout session is created with: one line item of the plan's price.
#[derive(Clone, Debug)]
pub struct CheckoutRequest {
    /// Where the provider sends the payer after paying.
    pub success_url: String,
    /// Where the provider sends the payer who abandons the checkout.
    pub cancel_url: String,
    /// The provider id of the existing customer, so that the session reuses its
    /// payment history.
    pub customer: Option<String>,
    /// How the session charges the payer.
    pub mode: CheckoutMode,
    /// The provider's price id of the chosen plan.
    pub price_id: String,
    /// Number of units of the plan bought.
    pub quantity: u64,
}

/// The text of an optional string.
pub open spec fn text_of(s: Option<String>) -> Option<Seq<char>> {
    match s {
        Some(t) => Some(t@),
        None => None,
    }
}

/// The provider id of an optional customer record.
pub open spec fn customer_id_of(customer: Option<StripeCustomer>) -> Option<Seq<char>> {
    match customer {
        Some(c) => Some(c.stripe_id@),
        None => None,
    }
}

/// Whether a checkout can be requested for the given existing customer id, if any.
pub open spec fn checkout_customer_ok(customer: Option<Seq<char>>) -> bool {
    match customer {
        None => true,
        Some(id) => has_prefix(id, customer_prefix()),
    }
}

/// What the caller receives, given whether the provider created the session and
/// the redirect URL it returned.
pub open spec fn checkout_outcome_of(created: bool, url: Option<String>) -> Result<
    String,
    BillingError,
> {
    if created && url is Some && url->0@.len() > 0 {
        Ok(url->0)
    } else {
        Err(BillingError::Provider)
    }
}

/// Builds the subscription-mode checkout request for `plan_id`.
///
/// The cancel URL is the configured application origin. An existing customer is
/// attached by its provider id, which must be a well-formed customer id.
pub fn checkout_request(
    stripe_customer: Option<StripeCustomer>,
    plan_id: String,
    success_url: String,
    config: &BillingConfig,
) -> (r: Result<CheckoutRequest, BillingError>)
    ensures
        r.is_ok() == checkout_customer_ok(customer_id_of(stripe_customer)),
        r is Err ==> r->Err_0 == BillingError::MissingField,
        r matches Ok(req) ==> {
            &&& req.success_url == success_url
            &&& req.cancel_url == config.app_url
            &&& text_of(req.customer) == customer_id_of(stripe_customer)
            &&& req.mode == CheckoutMode::Subscription
            &&& req.price_id == plan_id
            &&& req.quantity == 1
        },
{
    let customer = match stripe_customer {
        None => None,
        Some(c) => match parse_customer_id(c.stripe_id.as_str()) {
            Some(id) => Some(id),
            None => {
                return Err(BillingError::MissingField);
            },
        },
    };
    let cancel_url = config.app_url.clone();
    Ok(
        CheckoutRequest {
            success_url,
            cancel_url,
            customer,
            mode: CheckoutMode::Subscription,
            price_id: plan_id,
            quantity: 1,
        },
    )
}

/// Turns the provider's answer to a checkout request into the redirect URL.
///
/// `created` says whether the provider accepted the request; `url` is the redirect
/// URL it returned. A rejected request, or one with no usable URL, is a provider error.
pub fn checkout_outcome(created: bool, url: Option<String>) -> (r: Result<String, BillingError>)
    ensures
        r == checkout_outcome_of(created, url),
{
    match url {
        Some(u) => {
            if created && !u.as_str().is_empty() {
                Ok(u)
            } else {
                Err(BillingError::Provider)
            }
        },
        None => Err(BillingError::Provider),
    }
}

/// Without an existing customer a checkout request is always built, and a created
/// session yields its URL when that URL is non-empty and a provider error when
/// there is none.
pub proof fn lemma_checkout_without_customer(url: String)
    ensures
        checkout_customer_ok(None),
        url@.len() > 0 ==> checkout_outcome_of(true, Some(url)) == Ok::<String, BillingError>(url),
        checkout_outcome_of(true, None) == Err::<String, BillingError>(BillingError::Provider),
{
}

} // verus!
