use vstd::prelude::*;

verus! {

/// The ways a billing operation can fail.
#[derive(Clone, Copy, Debug, PartialEq, Eq, Structural)]
pub enum BillingError {
    /// The payment provider rejected or failed a call.
    Provider,
    /// The persistence layer failed a read or a write.
    Store,
    /// An expected field was absent, or malformed, on a provider object.
    MissingField,
    /// The charged amount is not in the plan catalog.
    UnknownPlanAmount,
    /// No matching row was found.
    NotFound,
    /// The invitation subsystem failed to invite a new payer.
    Invitation,
}

/// The user-facing message of each kind of error.
pub open spec fn message_of(e: BillingError) -> Seq<char> {
    match e {
        BillingError::Provider => "Error communicating with the payment provider, try again"@,
        BillingError::Store => "Error reading or writing billing records, try again"@,
        BillingError::MissingField => "A required field is missing from the provider's data"@,
        BillingError::UnknownPlanAmount => "Plan id is not silver or gold"@,
        BillingError::NotFound => "No matching billing record was found"@,
        BillingError::Invitation => "Error inviting the new customer, try again"@,
    }
}

impl BillingError {
    /// A short message that is safe to show to a user.
    pub fn message(&self) -> (r: &'static str)
        ensures
            r@ == message_of(*self),
            r@.len() > 0,
    {
        proof {
            reveal_strlit("Error communicating with the payment provider, try again");
            reveal_strlit("Error reading or writing billing records, try again");
            reveal_strlit("A required field is missing from the provider's data");
            reveal_strlit("Plan id is not silver or gold");
            reveal_strlit("No matching billing record was found");
            reveal_strlit("Error inviting the new customer, try again");
        }
        match self {
            BillingError::Provider => "Error communicating with the payment provider, try again",
            BillingError::Store => "Error reading or writing billing records, try again",
            BillingError::MissingField => "A required field is missing from the provider's data",
            BillingError::UnknownPlanAmount => "Plan id is not silver or gold",
            BillingError::NotFound => "No matching billing record was found",
            BillingError::Invitation => "Error inviting the new customer, try again",
        }
    }
}

/// Every kind of error has its own non-empty message.
pub proof fn lemma_messages_distinct(a: BillingError, b: BillingError)
    ensures
        message_of(a).len() > 0,
        a != b ==> message_of(a) != message_of(b),
{
    reveal_strlit("Error communicating with the payment provider, try again");
    reveal_strlit("Error reading or writing billing records, try again");
    reveal_strlit("A required field is missing from the provider's data");
    reveal_strlit("Plan id is not silver or gold");
    reveal_strlit("No matching billing record was found");
    reveal_strlit("Error inviting the new customer, try again");
    if a != b {
        assert(message_of(a).len() != message_of(b).len());
    }
}

} // verus!
