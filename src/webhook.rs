use vstd::prelude::*;

use crate::catalog::{resolve_tier, tier_of, PlanTier};
use crate::error::BillingError;
use crate::models::StripeCustomer;

verus! {

/// The part of a verified provider event that processing reads.
#[derive(Clone, Debug)]
pub enum WebhookEvent {
    /// A hosted checkout finished and the payer was charged.
    CheckoutSessionCompleted {
        customer: Option<String>,
        subscription: Option<String>,
        amount_total: Option<i64>,
    },
    /// The provider created a customer.
    CustomerCreated { customer_id: String, email: Option<String> },
    /// Any other event type; it is acknowledged and ignored.
    Other,
}

/// The next effect the caller performs for the event being processed.
#[derive(Debug)]
pub enum WebhookAction {
    /// Insert a plan row granting `tier` to the customer for the subscription.
    InsertUserPlan { stripe_customer_id: String, tier: PlanTier, subscription_id: String },
    /// Ask the user directory whether a user with this email exists.
    FindUser { email: String },
    /// Invite a new user with this email.
    SendInvitation { email: String },
    /// Insert a customer mirror row.
    InsertCustomer { customer: StripeCustomer },
    /// Processing is over, with this result.
    Finish { result: Result<(), BillingError> },
}

/// Where processing of one event stands: which effect's reply it awaits.
#[derive(Clone, Debug)]
pub enum WebhookStage {
    AwaitPlanInsert,
    AwaitUserLookup { customer_id: String, email: String },
    AwaitInvitation { customer_id: String, email: String },
    AwaitCustomerInsert,
    Finished,
}

/// How an effect went, as the caller reports it.
#[derive(Clone, Copy, Debug, PartialEq, Eq, Structural)]
pub enum Reply {
    /// The write or the invitation succeeded.
    Done,
    /// The write or the invitation failed.
    Failed,
    /// The directory holds a user with the email.
    UserFound,
    /// The directory holds no user with the email, or could not be read.
    UserAbsent,
}

/// Whether `action` ends processing.
pub open spec fn is_finish(action: WebhookAction) -> bool {
    action is Finish
}

/// The first step for an event; `None` stands for a payload that failed
/// verification, which is acknowledged without effect.
pub open spec fn begin_spec(event: Option<WebhookEvent>) -> (WebhookStage, WebhookAction) {
    match event {
        None => (WebhookStage::Finished, WebhookAction::Finish { result: Ok(()) }),
        Some(WebhookEvent::Other) => (WebhookStage::Finished, WebhookAction::Finish { result: Ok(()) }),
        Some(WebhookEvent::CheckoutSessionCompleted { customer, subscription, amount_total }) => {
            if customer is None || subscription is None {
                (
                    WebhookStage::Finished,
                    WebhookAction::Finish { result: Err(BillingError::MissingField) },
                )
            } else if amount_total is None || tier_of(amount_total->0 as int) is None {
                (
                    WebhookStage::Finished,
                    WebhookAction::Finish { result: Err(BillingError::UnknownPlanAmount) },
                )
            } else {
                (
                    WebhookStage::AwaitPlanInsert,
                    WebhookAction::InsertUserPlan {
                        stripe_customer_id: customer->0,
                        tier: tier_of(amount_total->0 as int)->0,
                        subscription_id: subscription->0,
                    },
                )
            }
        },
        Some(WebhookEvent::CustomerCreated { customer_id, email }) => match email {
            Some(e) => (
                WebhookStage::AwaitUserLookup { customer_id, email: e },
                WebhookAction::FindUser { email: e },
            ),
            None => (
                WebhookStage::AwaitCustomerInsert,
                WebhookAction::InsertCustomer {
                    customer: StripeCustomer { stripe_id: customer_id, email: None },
                },
            ),
        },
    }
}

/// The step after the reply to the effect that `stage` awaits.
pub open spec fn advance_spec(stage: WebhookStage, reply: Reply) -> (WebhookStage, WebhookAction) {
    match stage {
        WebhookStage::AwaitPlanInsert => if reply == Reply::Failed {
            (WebhookStage::Finished, WebhookAction::Finish { result: Err(BillingError::Store) })
        } else {
            (WebhookStage::Finished, WebhookAction::Finish { result: Ok(()) })
        },
        WebhookStage::AwaitUserLookup { customer_id, email } => if reply == Reply::UserFound {
            (
                WebhookStage::AwaitCustomerInsert,
                WebhookAction::InsertCustomer {
                    customer: StripeCustomer { stripe_id: customer_id, email: Some(email) },
                },
            )
        } else {
            (
                WebhookStage::AwaitInvitation { customer_id, email },
                WebhookAction::SendInvitation { email },
            )
        },
        WebhookStage::AwaitInvitation { customer_id, email } => if reply == Reply::Failed {
            (
                WebhookStage::Finished,
                WebhookAction::Finish { result: Err(BillingError::Invitation) },
            )
        } else {
            (
                WebhookStage::AwaitCustomerInsert,
                WebhookAction::InsertCustomer {
                    customer: StripeCustomer { stripe_id: customer_id, email: Some(email) },
                },
            )
        },
        WebhookStage::AwaitCustomerInsert => if reply == Reply::Failed {
            (WebhookStage::Finished, WebhookAction::Finish { result: Err(BillingError::Store) })
        } else {
            (WebhookStage::Finished, WebhookAction::Finish { result: Ok(()) })
        },
        WebhookStage::Finished => (WebhookStage::Finished, WebhookAction::Finish { result: Ok(()) }),
    }
}

/// The effects requested from `stage` on, starting with `action`, when the caller
/// answers each with the next of `replies`, until processing finishes or the
/// replies run out.
pub open spec fn trace(stage: WebhookStage, action: WebhookAction, replies: Seq<Reply>) -> Seq<
    WebhookAction,
>
    decreases replies.len(),
{
    if is_finish(action) || replies.len() == 0 {
        seq![action]
    } else {
        let next = advance_spec(stage, replies[0]);
        seq![action] + trace(next.0, next.1, replies.subrange(1, replies.len() as int))
    }
}

/// Every effect requested for `event` when the caller answers with `replies`.
pub open spec fn run(event: Option<WebhookEvent>, replies: Seq<Reply>) -> Seq<WebhookAction> {
    let first = begin_spec(event);
    trace(first.0, first.1, replies)
}

/// Starts processing a webhook event; `None` stands for a payload whose
/// signature did not verify.
///
/// A completed checkout without a customer or a subscription fails with a missing
/// field, one whose amount is not in the catalog with an unknown amount; otherwise
/// it inserts a plan of the tier the amount buys. A created customer with an email
/// is first looked up in the user directory; one without is mirrored at once. Any
/// other event, and an unverified payload, finishes with success.
pub fn begin(event: Option<WebhookEvent>) -> (r: (WebhookStage, WebhookAction))
    ensures
        r == begin_spec(event),
        is_finish(r.1) <==> r.0 is Finished,
{
    match event {
        None => (WebhookStage::Finished, WebhookAction::Finish { result: Ok(()) }),
        Some(WebhookEvent::Other) => (WebhookStage::Finished, WebhookAction::Finish { result: Ok(()) }),
        Some(WebhookEvent::CheckoutSessionCompleted { customer, subscription, amount_total }) => {
            let (customer, subscription) = match (customer, subscription) {
                (Some(c), Some(s)) => (c, s),
                _ => {
                    return (
                        WebhookStage::Finished,
                        WebhookAction::Finish { result: Err(BillingError::MissingField) },
                    );
                },
            };
            let tier = match amount_total {
                Some(amount) => resolve_tier(amount),
                None => None,
            };
            match tier {
                Some(tier) => (
                    WebhookStage::AwaitPlanInsert,
                    WebhookAction::InsertUserPlan {
                        stripe_customer_id: customer,
                        tier,
                        subscription_id: subscription,
                    },
                ),
                None => (
                    WebhookStage::Finished,
                    WebhookAction::Finish { result: Err(BillingError::UnknownPlanAmount) },
                ),
            }
        },
        Some(WebhookEvent::CustomerCreated { customer_id, email }) => match email {
            Some(e) => {
                let looked_up = e.clone();
                (
                    WebhookStage::AwaitUserLookup { customer_id, email: e },
                    WebhookAction::FindUser { email: looked_up },
                )
            },
            None => (
                WebhookStage::AwaitCustomerInsert,
                WebhookAction::InsertCustomer {
                    customer: StripeCustomer { stripe_id: customer_id, email: None },
                },
            ),
        },
    }
}

/// Takes the reply to the effect that `stage` awaits and returns the next stage
/// and effect. A failed write or invitation ends processing with its error; a
/// known user gets no invitation, and the customer is mirrored either way.
pub fn advance(stage: WebhookStage, reply: Reply) -> (r: (WebhookStage, WebhookAction))
    requires
        !(stage is Finished),
    ensures
        r == advance_spec(stage, reply),
        is_finish(r.1) <==> r.0 is Finished,
{
    match stage {
        WebhookStage::AwaitPlanInsert => if reply == Reply::Failed {
            (WebhookStage::Finished, WebhookAction::Finish { result: Err(BillingError::Store) })
        } else {
            (WebhookStage::Finished, WebhookAction::Finish { result: Ok(()) })
        },
        WebhookStage::AwaitUserLookup { customer_id, email } => if reply == Reply::UserFound {
            (
                WebhookStage::AwaitCustomerInsert,
                WebhookAction::InsertCustomer {
                    customer: StripeCustomer { stripe_id: customer_id, email: Some(email) },
                },
            )
        } else {
            let invited = email.clone();
            (
                WebhookStage::AwaitInvitation { customer_id, email },
                WebhookAction::SendInvitation { email: invited },
            )
        },
        WebhookStage::AwaitInvitation { customer_id, email } => if reply == Reply::Failed {
            (
                WebhookStage::Finished,
                WebhookAction::Finish { result: Err(BillingError::Invitation) },
            )
        } else {
            (
                WebhookStage::AwaitCustomerInsert,
                WebhookAction::InsertCustomer {
                    customer: StripeCustomer { stripe_id: customer_id, email: Some(email) },
                },
            )
        },
        WebhookStage::AwaitCustomerInsert => if reply == Reply::Failed {
            (WebhookStage::Finished, WebhookAction::Finish { result: Err(BillingError::Store) })
        } else {
            (WebhookStage::Finished, WebhookAction::Finish { result: Ok(()) })
        },
        WebhookStage::Finished => (WebhookStage::Finished, WebhookAction::Finish { result: Ok(()) }),
    }
}

/// A payload that fails verification is acknowledged with success and causes no
/// write, whatever the caller would answer.
pub proof fn lemma_unverified_payload_is_acknowledged(replies: Seq<Reply>)
    ensures
        run(None, replies) == seq![WebhookAction::Finish { result: Ok(()) }],
{
}

/// A completed checkout that lacks a customer or a subscription reference fails
/// with a missing field and inserts no plan.
pub proof fn lemma_checkout_missing_reference(
    customer: Option<String>,
    subscription: Option<String>,
    amount_total: Option<i64>,
    replies: Seq<Reply>,
)
    requires
        customer is None || subscription is None,
    ensures
        run(
            Some(WebhookEvent::CheckoutSessionCompleted { customer, subscription, amount_total }),
            replies,
        ) == seq![WebhookAction::Finish { result: Err(BillingError::MissingField) }],
{
}

/// A completed checkout of 5000 with both references inserts exactly one plan, of
/// the gold tier, for that customer and subscription, and nothing else; processing
/// then succeeds exactly when that insert does.
pub proof fn lemma_gold_checkout_inserts_one_plan(
    customer: String,
    subscription: String,
    replies: Seq<Reply>,
)
    requires
        replies.len() > 0,
    ensures
        run(
            Some(
                WebhookEvent::CheckoutSessionCompleted {
                    customer: Some(customer),
                    subscription: Some(subscription),
                    amount_total: Some(5000),
                },
            ),
            replies,
        ) == seq![
            WebhookAction::InsertUserPlan {
                stripe_customer_id: customer,
                tier: PlanTier::Gold,
                subscription_id: subscription,
            },
            WebhookAction::Finish {
                result: if replies[0] == Reply::Failed {
                    Err(BillingError::Store)
                } else {
                    Ok(())
                },
            },
        ],
{
    let insert = WebhookAction::InsertUserPlan {
        stripe_customer_id: customer,
        tier: PlanTier::Gold,
        subscription_id: subscription,
    };
    let next = advance_spec(WebhookStage::AwaitPlanInsert, replies[0]);
    let rest = replies.subrange(1, replies.len() as int);
    assert(trace(next.0, next.1, rest) == seq![next.1]);
    assert(trace(WebhookStage::AwaitPlanInsert, insert, replies) == seq![insert] + seq![next.1]);
    assert(seq![insert] + seq![next.1] =~= seq![insert, next.1]);
}

/// A created customer whose email the user directory already holds gets no
/// invitation: the customer is looked up, then mirrored with that email, and
/// processing ends with the result of that insert.
pub proof fn lemma_known_customer_not_invited(
    customer_id: String,
    email: String,
    replies: Seq<Reply>,
)
    requires
        replies.len() > 1,
        replies[0] == Reply::UserFound,
    ensures
        run(Some(WebhookEvent::CustomerCreated { customer_id, email: Some(email) }), replies)
            == seq![
            WebhookAction::FindUser { email },
            WebhookAction::InsertCustomer {
                customer: StripeCustomer { stripe_id: customer_id, email: Some(email) },
            },
            WebhookAction::Finish {
                result: if replies[1] == Reply::Failed {
                    Err(BillingError::Store)
                } else {
                    Ok(())
                },
            },
        ],
{
    let lookup = WebhookAction::FindUser { email };
    let stage1 = WebhookStage::AwaitUserLookup { customer_id, email };
    let second = advance_spec(stage1, replies[0]);
    let rest1 = replies.subrange(1, replies.len() as int);
    let third = advance_spec(second.0, rest1[0]);
    let rest2 = rest1.subrange(1, rest1.len() as int);
    assert(trace(third.0, third.1, rest2) == seq![third.1]);
    assert(trace(second.0, second.1, rest1) == seq![second.1] + seq![third.1]);
    assert(trace(stage1, lookup, replies) == seq![lookup] + (seq![second.1] + seq![third.1]));
    assert(seq![lookup] + (seq![second.1] + seq![third.1]) =~= seq![lookup, second.1, third.1]);
}

} // verus!
