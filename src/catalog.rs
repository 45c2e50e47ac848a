use vstd::prelude::*;

verus! {

/// Amount, in the provider's minor units, charged for the gold plan.
pub const GOLD_AMOUNT: i64 = 5000;

/// Amount, in the provider's minor units, charged for the silver plan.
pub const SILVER_AMOUNT: i64 = 1500;

/// An internal entitlement granted after a successful payment.
#[derive(Clone, Copy, Debug, PartialEq, Eq, Structural)]
pub enum PlanTier {
    Gold,
    Silver,
}

/// The price table: the tier an exact charged amount buys, if any.
pub open spec fn tier_of(amount: int) -> Option<PlanTier> {
    if amount == 5000 {
        Some(PlanTier::Gold)
    } else if amount == 1500 {
        Some(PlanTier::Silver)
    } else {
        None
    }
}

/// The stored name of a tier.
pub open spec fn tier_name(tier: PlanTier) -> Seq<char> {
    match tier {
        PlanTier::Gold => seq!['g', 'o', 'l', 'd'],
        PlanTier::Silver => seq!['s', 'i', 'l', 'v', 'e', 'r'],
    }
}

impl PlanTier {
    /// The name under which the tier is stored in a plan record.
    pub fn name(&self) -> (r: String)
        ensures
            r@ == tier_name(*self),
    {
        match self {
            PlanTier::Gold => {
                proof {
                    reveal_strlit("gold");
                }
                "gold".to_owned()
            },
            PlanTier::Silver => {
                proof {
                    reveal_strlit("silver");
                }
                "silver".to_owned()
            },
        }
    }
}

/// Maps a charged amount to the plan tier it pays for, by exact match.
pub fn resolve_tier(charged_amount: i64) -> (r: Option<PlanTier>)
    ensures
        r == tier_of(charged_amount as int),
        r == Some(PlanTier::Gold) <==> charged_amount == GOLD_AMOUNT,
        r == Some(PlanTier::Silver) <==> charged_amount == SILVER_AMOUNT,
        r.is_none() <==> (charged_amount != GOLD_AMOUNT && charged_amount != SILVER_AMOUNT),
{
    if charged_amount == GOLD_AMOUNT {
        Some(PlanTier::Gold)
    } else if charged_amount == SILVER_AMOUNT {
        Some(PlanTier::Silver)
    } else {
        None
    }
}

/// Every amount outside the price table buys no tier.
pub proof fn lemma_unlisted_amount_has_no_tier(amount: int)
    requires
        amount != 5000,
        amount != 1500,
    ensures
        tier_of(amount).is_none(),
{
}

/// The two listed amounts buy exactly gold and silver.
pub proof fn lemma_listed_amounts()
    ensures
        tier_of(5000) == Some(PlanTier::Gold),
        tier_of(1500) == Some(PlanTier::Silver),
        tier_name(PlanTier::Gold) == seq!['g', 'o', 'l', 'd'],
        tier_name(PlanTier::Silver) == seq!['s', 'i', 'l', 'v', 'e', 'r'],
{
}

} // verus!
