use vstd::prelude::*;

use crate::error::BillingError;
use crate::ids::{has_prefix, parse_subscription_id, subscription_prefix};

verus! {

/// A request to the provider to end a subscription.
#[derive(Clone, Debug)]
pub struct CancelRequest {
    /// The provider id of the subscription to end.
    pub subscription_id: String,
    /// Whether it ends when the current billing period does, rather than now.
    pub cancel_at_period_end: bool,
}

/// The caller's result for a well-formed subscription id, given whether the
/// provider accepted the update.
pub open spec fn cancel_provider_result(accepted: bool) -> Result<(), BillingError> {
    if accepted {
        Ok(())
    } else {
        Err(BillingError::Provider)
    }
}

/// What cancelling the subscription `id` returns to the caller, given whether the
/// provider accepted the update.
pub open spec fn cancel_result_of(id: Seq<char>, accepted: bool) -> Result<(), BillingError> {
    if !has_prefix(id, subscription_prefix()) {
        Err(BillingError::MissingField)
    } else {
        cancel_provider_result(accepted)
    }
}

/// Builds the request that cancels `subscription_id` at the end of its current
/// billing period. A malformed subscription id is a missing field.
pub fn cancel_request(subscription_id: &str) -> (r: Result<CancelRequest, BillingError>)
    ensures
        r.is_ok() == has_prefix(subscription_id@, subscription_prefix()),
        r is Err ==> r->Err_0 == BillingError::MissingField,
        r matches Ok(req) ==> req.subscription_id@ == subscription_id@ && req.cancel_at_period_end,
        r is Err ==> forall|accepted: bool| #[trigger]
            cancel_result_of(subscription_id@, accepted) == Err::<(), BillingError>(
                BillingError::MissingField,
            ),
        r is Ok ==> forall|accepted: bool| #[trigger]
            cancel_result_of(subscription_id@, accepted) == cancel_provider_result(accepted),
{
    match parse_subscription_id(subscription_id) {
        Some(id) => Ok(CancelRequest { subscription_id: id, cancel_at_period_end: true }),
        None => Err(BillingError::MissingField),
    }
}

/// Turns the provider's answer to a cancellation into the caller's result. No local
/// state changes either way.
pub fn cancel_outcome(accepted: bool) -> (r: Result<(), BillingError>)
    ensures
        r == cancel_provider_result(accepted),
{
    if accepted {
        Ok(())
    } else {
        Err(BillingError::Provider)
    }
}

/// Cancelling the same subscription twice never fails differently the second time:
/// whatever the provider answers to each attempt, two failures are the same error.
pub proof fn lemma_cancel_repeatable(id: Seq<char>, first: bool, second: bool)
    ensures
        cancel_result_of(id, first) is Err && cancel_result_of(id, second) is Err
            ==> cancel_result_of(id, first) == cancel_result_of(id, second),
        first == second ==> cancel_result_of(id, first) == cancel_result_of(id, second),
{
}

} // verus!
