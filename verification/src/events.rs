//! What the operations report to the outside: one record per effect.

use crate::address::Address;
use crate::amount::Amount;
use crate::plans::PlanId;
use crate::subscriptions::SubscriptionId;
use vstd::prelude::*;

verus! {

/// A merchant created a plan.
#[derive(Clone, Copy, Debug, PartialEq, Eq)]
pub struct PlanCreated {
    pub plan_id: PlanId,
    pub merchant: Address,
}

/// A subscriber enrolled in a plan.
#[derive(Clone, Copy, Debug, PartialEq, Eq)]
pub struct Subscribed {
    pub subscription_id: SubscriptionId,
    pub plan_id: PlanId,
    pub subscriber: Address,
}

/// A subscriber cancelled a subscription.
#[derive(Clone, Copy, Debug, PartialEq, Eq)]
pub struct SubscriptionCanceled {
    pub subscription_id: SubscriptionId,
    pub plan_id: PlanId,
    pub subscriber: Address,
}

/// One period was charged: `price_per_period` left the subscriber's balance
/// and is owed to the merchant. `period_index` counts the periods paid before.
#[derive(Clone, Copy, Debug, PartialEq, Eq)]
pub struct BillingProcessed {
    pub subscription_id: SubscriptionId,
    pub plan_id: PlanId,
    pub subscriber: Address,
    pub merchant: Address,
    pub period_index: u32,
    pub price_per_period: Amount,
}

} // verus!
