use vstd::prelude::*;

verus! {

/// The internal mirror of a provider customer, as written to the store.
///
/// The store adds a generated id of its own when the row is inserted.
#[derive(Clone, Debug)]
pub struct StripeCustomer {
    pub stripe_id: String,
    pub email: Option<String>,
}

impl StripeCustomer {
    /// A mirror record for the provider customer `stripe_id`.
    pub fn from_details(stripe_id: String, email: Option<String>) -> (r: StripeCustomer)
        ensures
            r.stripe_id == stripe_id,
            r.email == email,
    {
        StripeCustomer { stripe_id, email }
    }
}

/// The entitlement granted to a provider customer, as written to the store.
///
/// The store adds a generated id of its own when the row is inserted.
#[derive(Clone, Debug)]
pub struct UserPlan {
    pub stripe_customer_id: String,
    pub plan: String,
    pub subscription_id: String,
}

impl UserPlan {
    /// A plan record linking a provider customer, a tier name and a subscription.
    pub fn from_details(stripe_customer_id: String, plan: String, subscription_id: String) -> (r:
        UserPlan)
        ensures
            r.stripe_customer_id == stripe_customer_id,
            r.plan == plan,
            r.subscription_id == subscription_id,
    {
        UserPlan { stripe_customer_id, plan, subscription_id }
    }
}

} // verus!
