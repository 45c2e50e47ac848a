use stripe_billing::{
    advance, begin, cancel_outcome, cancel_request, checkout_outcome, checkout_request,
    resolve_tier, BillingConfig, CheckoutMode, BillingError, PlanTier, Reply, StripeCustomer, UserPlan,
    WebhookAction, WebhookEvent, WebhookStage,
};

fn config() -> BillingConfig {
    BillingConfig::new(
        "sk_test".to_string(),
        "whsec_test".to_string(),
        Some("https://app.example.com".to_string()),
    )
}

fn checkout_event(
    customer: Option<&str>,
    subscription: Option<&str>,
    amount: Option<i64>,
) -> WebhookEvent {
    WebhookEvent::CheckoutSessionCompleted {
        customer: customer.map(|c| c.to_string()),
        subscription: subscription.map(|s| s.to_string()),
        amount_total: amount,
    }
}

fn finish_result(action: &WebhookAction) -> Option<Result<(), BillingError>> {
    match action {
        WebhookAction::Finish { result } => Some(*result),
        _ => None,
    }
}

#[test]
fn resolve_tier_unlisted_amounts_are_not_found() {
    for amount in [0i64, 1, 1499, 1501, 4999, 5001, -5000, -1500, 150000, i64::MAX, i64::MIN] {
        assert_eq!(resolve_tier(amount), None);
    }
}

#[test]
fn resolve_tier_listed_amounts() {
    assert_eq!(resolve_tier(5000), Some(PlanTier::Gold));
    assert_eq!(resolve_tier(1500), Some(PlanTier::Silver));
}

#[test]
fn tier_names() {
    assert_eq!(PlanTier::Gold.name(), "gold");
    assert_eq!(PlanTier::Silver.name(), "silver");
}

#[test]
fn config_defaults_app_url() {
    let c = BillingConfig::new("k".to_string(), "s".to_string(), None);
    assert_eq!(c.app_url, "http://localhost:3000");
    assert_eq!(c.api_secret_key, "k");
    assert_eq!(c.webhook_signing_secret, "s");
    assert_eq!(config().app_url, "https://app.example.com");
}

#[test]
fn records_from_details() {
    let c = StripeCustomer::from_details("cus_1".to_string(), Some("a@b.c".to_string()));
    assert_eq!(c.stripe_id, "cus_1");
    assert_eq!(c.email.as_deref(), Some("a@b.c"));
    let p = UserPlan::from_details("cus_1".to_string(), "gold".to_string(), "sub_1".to_string());
    assert_eq!(p.stripe_customer_id, "cus_1");
    assert_eq!(p.plan, "gold");
    assert_eq!(p.subscription_id, "sub_1");
}

#[test]
fn checkout_request_without_customer() {
    let req = checkout_request(
        None,
        "price_gold".to_string(),
        "https://app.example.com/done".to_string(),
        &config(),
    )
    .unwrap();
    assert_eq!(req.success_url, "https://app.example.com/done");
    assert_eq!(req.cancel_url, "https://app.example.com");
    assert_eq!(req.price_id, "price_gold");
    assert_eq!(req.quantity, 1);
    assert_eq!(req.mode, CheckoutMode::Subscription);
    assert!(req.customer.is_none());
}

#[test]
fn checkout_request_reuses_existing_customer() {
    let customer = StripeCustomer::from_details("cus_abc".to_string(), None);
    let req = checkout_request(Some(customer), "price_1".to_string(), "u".to_string(), &config())
        .unwrap();
    assert_eq!(req.customer.as_deref(), Some("cus_abc"));
    assert_eq!(req.mode, CheckoutMode::Subscription);
}

#[test]
fn checkout_request_rejects_malformed_customer_id() {
    let customer = StripeCustomer::from_details("abc".to_string(), None);
    let r = checkout_request(Some(customer), "price_1".to_string(), "u".to_string(), &config());
    assert_eq!(r.err(), Some(BillingError::MissingField));
}

#[test]
fn checkout_outcome_cases() {
    let url = "https://checkout.example.com/s/1".to_string();
    assert_eq!(checkout_outcome(true, Some(url.clone())), Ok(url.clone()));
    assert_eq!(checkout_outcome(true, None), Err(BillingError::Provider));
    assert_eq!(checkout_outcome(true, Some(String::new())), Err(BillingError::Provider));
    assert_eq!(checkout_outcome(false, Some(url)), Err(BillingError::Provider));
}

#[test]
fn cancel_request_at_period_end() {
    let req = cancel_request("sub_123").unwrap();
    assert!(req.cancel_at_period_end);
    assert_eq!(req.subscription_id, "sub_123");
    assert_eq!(cancel_request("cus_123").err(), Some(BillingError::MissingField));
    assert_eq!(cancel_request("").err(), Some(BillingError::MissingField));
}

#[test]
fn cancel_twice_gives_same_result() {
    assert_eq!(cancel_outcome(true), Ok(()));
    assert_eq!(cancel_outcome(true), cancel_outcome(true));
    assert_eq!(cancel_outcome(false), Err(BillingError::Provider));
    assert_eq!(cancel_outcome(false), cancel_outcome(false));
    assert_eq!(cancel_request("bad").err(), cancel_request("bad").err());
}

#[test]
fn unverified_payload_is_acknowledged() {
    let (stage, action) = begin(None);
    assert!(matches!(stage, WebhookStage::Finished));
    assert_eq!(finish_result(&action), Some(Ok(())));
}

#[test]
fn other_event_is_ignored() {
    let (stage, action) = begin(Some(WebhookEvent::Other));
    assert!(matches!(stage, WebhookStage::Finished));
    assert_eq!(finish_result(&action), Some(Ok(())));
}

#[test]
fn checkout_missing_customer_or_subscription() {
    for ev in [
        checkout_event(None, Some("sub_1"), Some(5000)),
        checkout_event(Some("cus_1"), None, Some(5000)),
        checkout_event(None, None, Some(1500)),
    ] {
        let (stage, action) = begin(Some(ev));
        assert!(matches!(stage, WebhookStage::Finished));
        assert_eq!(finish_result(&action), Some(Err(BillingError::MissingField)));
    }
}

#[test]
fn checkout_unknown_amount() {
    for amount in [Some(4999), Some(0), None] {
        let (_, action) = begin(Some(checkout_event(Some("cus_1"), Some("sub_1"), amount)));
        assert_eq!(finish_result(&action), Some(Err(BillingError::UnknownPlanAmount)));
    }
}

#[test]
fn checkout_gold_inserts_one_plan() {
    let (stage, action) = begin(Some(checkout_event(Some("cus_1"), Some("sub_9"), Some(5000))));
    match action {
        WebhookAction::InsertUserPlan { stripe_customer_id, tier, subscription_id } => {
            assert_eq!(stripe_customer_id, "cus_1");
            assert_eq!(tier, PlanTier::Gold);
            assert_eq!(tier.name(), "gold");
            assert_eq!(subscription_id, "sub_9");
        },
        other => panic!("unexpected action {:?}", other),
    }
    let (stage, action) = advance(stage, Reply::Done);
    assert!(matches!(stage, WebhookStage::Finished));
    assert_eq!(finish_result(&action), Some(Ok(())));
}

#[test]
fn checkout_silver_and_store_failure() {
    let (stage, action) = begin(Some(checkout_event(Some("cus_2"), Some("sub_2"), Some(1500))));
    assert!(matches!(action, WebhookAction::InsertUserPlan { tier: PlanTier::Silver, .. }));
    let (_, action) = advance(stage, Reply::Failed);
    assert_eq!(finish_result(&action), Some(Err(BillingError::Store)));
}

#[test]
fn known_customer_is_mirrored_without_invitation() {
    let ev = WebhookEvent::CustomerCreated {
        customer_id: "cus_7".to_string(),
        email: Some("known@example.com".to_string()),
    };
    let (stage, action) = begin(Some(ev));
    assert!(matches!(&action, WebhookAction::FindUser { email } if email == "known@example.com"));
    let (stage, action) = advance(stage, Reply::UserFound);
    match &action {
        WebhookAction::InsertCustomer { customer } => {
            assert_eq!(customer.stripe_id, "cus_7");
            assert_eq!(customer.email.as_deref(), Some("known@example.com"));
        },
        other => panic!("unexpected action {:?}", other),
    }
    let (stage, action) = advance(stage, Reply::Done);
    assert!(matches!(stage, WebhookStage::Finished));
    assert_eq!(finish_result(&action), Some(Ok(())));
}

#[test]
fn new_customer_is_invited_then_mirrored() {
    let ev = WebhookEvent::CustomerCreated {
        customer_id: "cus_8".to_string(),
        email: Some("new@example.com".to_string()),
    };
    let (stage, _) = begin(Some(ev));
    let (stage, action) = advance(stage, Reply::UserAbsent);
    assert!(matches!(&action, WebhookAction::SendInvitation { email } if email == "new@example.com"));
    let (stage, action) = advance(stage, Reply::Done);
    assert!(matches!(&action, WebhookAction::InsertCustomer { customer } if customer.stripe_id == "cus_8"));
    let (_, action) = advance(stage, Reply::Failed);
    assert_eq!(finish_result(&action), Some(Err(BillingError::Store)));
}

#[test]
fn failed_invitation_aborts() {
    let ev = WebhookEvent::CustomerCreated {
        customer_id: "cus_9".to_string(),
        email: Some("x@example.com".to_string()),
    };
    let (stage, _) = begin(Some(ev));
    let (stage, _) = advance(stage, Reply::UserAbsent);
    let (stage, action) = advance(stage, Reply::Failed);
    assert!(matches!(stage, WebhookStage::Finished));
    assert_eq!(finish_result(&action), Some(Err(BillingError::Invitation)));
}

#[test]
fn customer_without_email_is_mirrored() {
    let ev = WebhookEvent::CustomerCreated { customer_id: "cus_0".to_string(), email: None };
    let (stage, action) = begin(Some(ev));
    assert!(matches!(&action, WebhookAction::InsertCustomer { customer } if customer.email.is_none()));
    let (_, action) = advance(stage, Reply::Done);
    assert_eq!(finish_result(&action), Some(Ok(())));
}

#[test]
fn error_messages_are_distinct() {
    assert_eq!(BillingError::UnknownPlanAmount.message(), "Plan id is not silver or gold");
    let all = [
        BillingError::Provider,
        BillingError::Store,
        BillingError::MissingField,
        BillingError::UnknownPlanAmount,
        BillingError::NotFound,
        BillingError::Invitation,
    ];
    for (i, a) in all.iter().enumerate() {
        assert!(!a.message().is_empty());
        for b in &all[i + 1..] {
            assert_ne!(a.message(), b.message());
        }
    }
}
