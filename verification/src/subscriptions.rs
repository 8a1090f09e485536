//! The subscription registry: who is enrolled in which plan.
//!
//! A subscription is created active with no period paid. Its subscriber
//! alone can cancel it, and a cancelled subscription stays cancelled.
//! Identifiers are issued as those of plans are, from a counter of their own.

use crate::address::Address;
use crate::plans::{next_after, successor, PlanId};
use std::collections::HashMap;
use vstd::prelude::*;

verus! {

broadcast use vstd::std_specs::hash::group_hash_axioms;

pub type SubscriptionId = u64;

/// The number of periods paid after one more payment: it stops at the largest.
pub open spec fn one_more(periods_paid: u32) -> u32 {
    if periods_paid == u32::MAX {
        periods_paid
    } else {
        (periods_paid + 1) as u32
    }
}

/// A subscriber's enrolment in a plan.
#[derive(Clone, Copy, Debug)]
pub struct Subscription {
    pub subscriber: Address,
    pub plan_id: PlanId,
    pub active: bool,
    pub periods_paid: u32,
}

impl Subscription {
    /// The subscription as `subscribe` records it: active, no period paid.
    pub open spec fn opened(subscriber: Address, plan_id: PlanId) -> Subscription {
        Subscription { subscriber, plan_id, active: true, periods_paid: 0 }
    }

    /// Whether `caller` may cancel: the subscription is active and is the caller's own.
    pub open spec fn cancellable_by(self, caller: Address) -> bool {
        self.active && self.subscriber == caller
    }

    /// The subscription after it was cancelled.
    pub open spec fn cancelled(self) -> Subscription {
        Subscription { active: false, ..self }
    }

    /// The subscription after one more period was paid.
    pub open spec fn paid(self) -> Subscription {
        Subscription { periods_paid: one_more(self.periods_paid), ..self }
    }

    /// Computes [`Subscription::opened`].
    pub fn new(subscriber: Address, plan_id: PlanId) -> (r: Subscription)
        ensures
            r == Subscription::opened(subscriber, plan_id),
    {
        Subscription { subscriber, plan_id, active: true, periods_paid: 0 }
    }

    /// Computes [`Subscription::cancellable_by`].
    pub fn is_cancellable_by(&self, caller: &Address) -> (r: bool)
        ensures
            r == self.cancellable_by(*caller),
    {
        self.active && self.subscriber == *caller
    }

    /// Computes [`Subscription::cancelled`].
    pub fn after_cancel(&self) -> (r: Subscription)
        ensures
            r == self.cancelled(),
    {
        Subscription {
            subscriber: self.subscriber,
            plan_id: self.plan_id,
            active: false,
            periods_paid: self.periods_paid,
        }
    }

    /// Computes [`Subscription::paid`].
    pub fn after_payment(&self) -> (r: Subscription)
        ensures
            r == self.paid(),
    {
        let periods_paid = if self.periods_paid == u32::MAX {
            self.periods_paid
        } else {
            self.periods_paid + 1
        };
        Subscription {
            subscriber: self.subscriber,
            plan_id: self.plan_id,
            active: self.active,
            periods_paid,
        }
    }
}

/// The model of the registry: the next identifier and the subscriptions issued so far.
pub struct SubscriptionRegistryModel {
    pub next_id: SubscriptionId,
    pub subscriptions: Map<SubscriptionId, Subscription>,
}

impl SubscriptionRegistryModel {
    /// The registry before anyone subscribed.
    pub open spec fn empty() -> SubscriptionRegistryModel {
        SubscriptionRegistryModel { next_id: 0, subscriptions: Map::empty() }
    }

    /// Every identifier below the counter was issued, and nothing else was,
    /// but for the largest identifier once the counter has reached it.
    pub open spec fn wf(self) -> bool {
        &&& forall|id: SubscriptionId| id < self.next_id ==> self.subscriptions.contains_key(id)
        &&& forall|id: SubscriptionId|
            self.subscriptions.contains_key(id) ==> id < self.next_id || self.next_id == u64::MAX
    }

    /// The registry after `subscriber` enrols in plan `plan_id`. The
    /// subscription gets the identifier `self.next_id`.
    pub open spec fn open(self, subscriber: Address, plan_id: PlanId) -> SubscriptionRegistryModel {
        SubscriptionRegistryModel {
            next_id: successor(self.next_id),
            subscriptions: self.subscriptions.insert(
                self.next_id,
                Subscription::opened(subscriber, plan_id),
            ),
        }
    }

    /// Whether subscription `id` was issued and `caller` may cancel it.
    pub open spec fn cancellable_by(self, id: SubscriptionId, caller: Address) -> bool {
        self.subscriptions.contains_key(id) && self.subscriptions[id].cancellable_by(caller)
    }

    /// The registry after `caller` asks to cancel subscription `id`. Nothing
    /// changes unless the subscription exists, is active and is the caller's own.
    pub open spec fn cancel(self, caller: Address, id: SubscriptionId) -> SubscriptionRegistryModel {
        if self.cancellable_by(id, caller) {
            SubscriptionRegistryModel {
                next_id: self.next_id,
                subscriptions: self.subscriptions.insert(id, self.subscriptions[id].cancelled()),
            }
        } else {
            self
        }
    }

    /// The registry after one more period of subscription `id` was paid.
    /// Nothing changes if no such subscription was issued.
    pub open spec fn record_payment(self, id: SubscriptionId) -> SubscriptionRegistryModel {
        if self.subscriptions.contains_key(id) {
            SubscriptionRegistryModel {
                next_id: self.next_id,
                subscriptions: self.subscriptions.insert(id, self.subscriptions[id].paid()),
            }
        } else {
            self
        }
    }

    /// Whether subscription `id` was issued and is active.
    pub open spec fn is_active(self, id: SubscriptionId) -> bool {
        self.subscriptions.contains_key(id) && self.subscriptions[id].active
    }

    /// Subscriber, plan and active flag of subscription `id`, if it was issued.
    pub open spec fn core_of(self, id: SubscriptionId) -> Option<(Address, PlanId, bool)> {
        if self.subscriptions.contains_key(id) {
            let s = self.subscriptions[id];
            Some((s.subscriber, s.plan_id, s.active))
        } else {
            None
        }
    }

    /// The periods paid of subscription `id`: zero if it was never issued.
    pub open spec fn periods_paid(self, id: SubscriptionId) -> u32 {
        if self.subscriptions.contains_key(id) {
            self.subscriptions[id].periods_paid
        } else {
            0
        }
    }
}

/// The subscriptions issued so far, by identifier.
pub struct SubscriptionRegistry {
    next_id: SubscriptionId,
    subscriptions: HashMap<SubscriptionId, Subscription>,
}

impl View for SubscriptionRegistry {
    type V = SubscriptionRegistryModel;

    closed spec fn view(&self) -> SubscriptionRegistryModel {
        SubscriptionRegistryModel { next_id: self.next_id, subscriptions: self.subscriptions@ }
    }
}

impl SubscriptionRegistry {
    /// The registry's invariant: that of its model.
    pub open spec fn wf(&self) -> bool {
        self@.wf()
    }

    /// The registry before anyone subscribed.
    pub fn new() -> (r: SubscriptionRegistry)
        ensures
            r.wf(),
            r@ == SubscriptionRegistryModel::empty(),
    {
        SubscriptionRegistry { next_id: 0, subscriptions: HashMap::new() }
    }

    /// The subscription with identifier `id`, if it was issued.
    pub fn get(&self, id: SubscriptionId) -> (r: Option<Subscription>)
        ensures
            match r {
                Some(s) => self@.subscriptions.contains_key(id) && self@.subscriptions[id] == s,
                None => !self@.subscriptions.contains_key(id),
            },
    {
        match self.subscriptions.get(&id) {
            Some(s) => Some(*s),
            None => None,
        }
    }

    /// Records a new subscription of `subscriber` to plan `plan_id` under
    /// the next identifier and returns that identifier.
    pub fn open(&mut self, subscriber: Address, plan_id: PlanId) -> (r: SubscriptionId)
        requires
            old(self).wf(),
        ensures
            final(self).wf(),
            r == old(self)@.next_id,
            final(self)@ == old(self)@.open(subscriber, plan_id),
    {
        let id = self.next_id;
        self.next_id = next_after(id);
        self.subscriptions.insert(id, Subscription::new(subscriber, plan_id));
        assert(self@.subscriptions == old(self)@.subscriptions.insert(
            id,
            Subscription::opened(subscriber, plan_id),
        ));
        id
    }

    /// Cancels subscription `id` if it exists, is active and is the caller's
    /// own, and says whether it did. Otherwise nothing changes.
    pub fn cancel(&mut self, caller: &Address, id: SubscriptionId) -> (r: bool)
        requires
            old(self).wf(),
        ensures
            final(self).wf(),
            r == old(self)@.cancellable_by(id, *caller),
            final(self)@ == old(self)@.cancel(*caller, id),
    {
        match self.get(id) {
            Some(s) => {
                if s.is_cancellable_by(caller) {
                    self.subscriptions.insert(id, s.after_cancel());
                    true
                } else {
                    false
                }
            },
            None => false,
        }
    }

    /// Counts one more paid period for subscription `id` and returns the
    /// count before: the index of the period just paid. For an identifier
    /// that was never issued nothing changes and zero is returned.
    pub fn record_payment(&mut self, id: SubscriptionId) -> (r: u32)
        requires
            old(self).wf(),
        ensures
            final(self).wf(),
            r == old(self)@.periods_paid(id),
            final(self)@ == old(self)@.record_payment(id),
    {
        match self.get(id) {
            Some(s) => {
                self.subscriptions.insert(id, s.after_payment());
                s.periods_paid
            },
            None => 0,
        }
    }
}

} // verus!
