use vstd::prelude::*;

verus! {

/// Whether `s` begins with `prefix`.
pub open spec fn has_prefix(s: Seq<char>, prefix: Seq<char>) -> bool {
    prefix.len() <= s.len() && s.subrange(0, prefix.len() as int) == prefix
}

/// The prefix of every provider customer id.
pub open spec fn customer_prefix() -> Seq<char> {
    seq!['c', 'u', 's', '_']
}

/// The prefix of every provider subscription id.
pub open spec fn subscription_prefix() -> Seq<char> {
    seq!['s', 'u', 'b', '_']
}

/// Relies on stripe's `CustomerId::from_str`: it accepts exactly the strings that
/// start with `cus_`, and the id it builds displays as the string it was given.
#[verifier::external_body]
pub(crate) fn parse_customer_id(s: &str) -> (r: Option<String>)
    ensures
        r is Some == has_prefix(s@, customer_prefix()),
        r matches Some(t) ==> t@ == s@,
{
    match <stripe::CustomerId as std::str::FromStr>::from_str(s) {
        Ok(id) => Some(id.to_string()),
        Err(_) => None,
    }
}

/// Relies on stripe's `SubscriptionId::from_str`: it accepts exactly the strings that
/// start with `sub_`, and the id it builds displays as the string it was given.
#[verifier::external_body]
pub(crate) fn parse_subscription_id(s: &str) -> (r: Option<String>)
    ensures
        r is Some == has_prefix(s@, subscription_prefix()),
        r matches Some(t) ==> t@ == s@,
{
    match <stripe::SubscriptionId as std::str::FromStr>::from_str(s) {
        Ok(id) => Some(id.to_string()),
        Err(_) => None,
    }
}

} // verus!
