//! The billing rules: when a subscription may be charged, and what a charge reports.

use crate::events::BillingProcessed;
use crate::plans::{Plan, PlanView};
use crate::subscriptions::{Subscription, SubscriptionId};
use vstd::prelude::*;

verus! {

/// Whether a billing attempt may go on to the balance: the subscription
/// exists and is active, and so is its plan.
pub open spec fn chargeable(subscription: Option<Subscription>, plan: Option<PlanView>) -> bool {
    &&& subscription is Some
    &&& subscription->0.active
    &&& plan is Some
    &&& plan->0.active
}

/// What a charge of `subscription` under `plan` reports.
pub open spec fn receipt_of(
    subscription_id: SubscriptionId,
    subscription: Subscription,
    plan: PlanView,
) -> BillingProcessed {
    BillingProcessed {
        subscription_id,
        plan_id: subscription.plan_id,
        subscriber: subscription.subscriber,
        merchant: plan.merchant,
        period_index: subscription.periods_paid,
        price_per_period: plan.price_per_period,
    }
}

/// Computes [`chargeable`].
pub fn is_chargeable(subscription: Option<&Subscription>, plan: Option<&Plan>) -> (r: bool)
    ensures
        r == chargeable(
            match subscription {
                Some(s) => Some(*s),
                None => None,
            },
            match plan {
                Some(p) => Some(p@),
                None => None,
            },
        ),
{
    match (subscription, plan) {
        (Some(s), Some(p)) => s.active && p.active,
        _ => false,
    }
}

/// Computes [`receipt_of`].
pub fn receipt(subscription_id: SubscriptionId, subscription: &Subscription, plan: &Plan) -> (r:
    BillingProcessed)
    ensures
        r == receipt_of(subscription_id, *subscription, plan@),
{
    BillingProcessed {
        subscription_id,
        plan_id: subscription.plan_id,
        subscriber: subscription.subscriber,
        merchant: plan.merchant,
        period_index: subscription.periods_paid,
        price_per_period: plan.price_per_period,
    }
}

} // verus!
