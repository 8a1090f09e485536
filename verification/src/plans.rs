//! The plan registry: what merchants offer.
//!
//! A plan is created active, keeps its merchant, price, period and texts for
//! good, and can be switched off and on again by its merchant alone.
//! Identifiers are issued in order from zero. At the largest identifier the
//! counter stays where it is, and the next plan takes that identifier over.

use crate::address::Address;
use crate::amount::Amount;
use std::collections::HashMap;
use vstd::prelude::*;

verus! {

broadcast use vstd::std_specs::hash::group_hash_axioms;

pub type PlanId = u64;

/// The identifier issued after `id`: the next one, or `id` itself at the largest.
pub open spec fn successor(id: u64) -> u64 {
    if id == u64::MAX {
        id
    } else {
        (id + 1) as u64
    }
}

/// Computes [`successor`].
pub fn next_after(id: u64) -> (r: u64)
    ensures
        r == successor(id),
{
    if id == u64::MAX {
        id
    } else {
        id + 1
    }
}

/// A recurring charge that a merchant offers.
pub struct Plan {
    pub merchant: Address,
    pub price_per_period: Amount,
    pub period_secs: u64,
    pub active: bool,
    pub name: String,
    pub description: String,
}

/// The model of a plan: its texts as sequences of characters.
pub struct PlanView {
    pub merchant: Address,
    pub price_per_period: Amount,
    pub period_secs: u64,
    pub active: bool,
    pub name: Seq<char>,
    pub description: Seq<char>,
}

impl View for Plan {
    type V = PlanView;

    open spec fn view(&self) -> PlanView {
        PlanView {
            merchant: self.merchant,
            price_per_period: self.price_per_period,
            period_secs: self.period_secs,
            active: self.active,
            name: self.name@,
            description: self.description@,
        }
    }
}

impl PlanView {
    /// The plan as `create_plan` stores it: active, with the fields supplied.
    pub open spec fn created(
        merchant: Address,
        price_per_period: Amount,
        period_secs: u64,
        name: Seq<char>,
        description: Seq<char>,
    ) -> PlanView {
        PlanView { merchant, price_per_period, period_secs, active: true, name, description }
    }

    /// The plan switched on or off.
    pub open spec fn switched(self, active: bool) -> PlanView {
        PlanView { active, ..self }
    }
}

impl Plan {
    /// Computes [`PlanView::created`].
    pub fn new(
        merchant: Address,
        price_per_period: Amount,
        period_secs: u64,
        name: String,
        description: String,
    ) -> (r: Plan)
        ensures
            r@ == PlanView::created(merchant, price_per_period, period_secs, name@, description@),
    {
        Plan { merchant, price_per_period, period_secs, active: true, name, description }
    }

    /// Whether the plan belongs to `caller`.
    pub fn is_owned_by(&self, caller: &Address) -> (r: bool)
        ensures
            r == (self.merchant == *caller),
    {
        self.merchant == *caller
    }
}

/// Whether a plan takes new subscribers: it exists and is active.
pub open spec fn open_to_subscribers(plan: Option<PlanView>) -> bool {
    plan is Some && plan->0.active
}

/// Computes [`open_to_subscribers`].
pub fn is_open_to_subscribers(plan: Option<&Plan>) -> (r: bool)
    ensures
        r == open_to_subscribers(
            match plan {
                Some(p) => Some(p@),
                None => None,
            },
        ),
{
    match plan {
        Some(p) => p.active,
        None => false,
    }
}

/// The model of the registry: the next identifier and the plans issued so far.
pub struct PlanRegistryModel {
    pub next_id: PlanId,
    pub plans: Map<PlanId, PlanView>,
}

impl PlanRegistryModel {
    /// The registry before any plan was created.
    pub open spec fn empty() -> PlanRegistryModel {
        PlanRegistryModel { next_id: 0, plans: Map::empty() }
    }

    /// Every identifier below the counter was issued, and nothing else was,
    /// but for the largest identifier once the counter has reached it.
    pub open spec fn wf(self) -> bool {
        &&& forall|id: PlanId| id < self.next_id ==> self.plans.contains_key(id)
        &&& forall|id: PlanId|
            self.plans.contains_key(id) ==> id < self.next_id || self.next_id == u64::MAX
    }

    /// The registry after `merchant` creates a plan, which gets the
    /// identifier `self.next_id` and is active.
    pub open spec fn create(
        self,
        merchant: Address,
        price_per_period: Amount,
        period_secs: u64,
        name: Seq<char>,
        description: Seq<char>,
    ) -> PlanRegistryModel {
        PlanRegistryModel {
            next_id: successor(self.next_id),
            plans: self.plans.insert(
                self.next_id,
                PlanView::created(merchant, price_per_period, period_secs, name, description),
            ),
        }
    }

    /// Whether `plan_id` was issued and its plan belongs to `caller`.
    pub open spec fn owned_by(self, plan_id: PlanId, caller: Address) -> bool {
        self.plans.contains_key(plan_id) && self.plans[plan_id].merchant == caller
    }

    /// The registry after `caller` asks to switch plan `plan_id` on or off.
    /// Nothing changes unless the plan exists and belongs to `caller`.
    pub open spec fn set_active(self, caller: Address, plan_id: PlanId, active: bool)
        -> PlanRegistryModel {
        if self.owned_by(plan_id, caller) {
            PlanRegistryModel {
                next_id: self.next_id,
                plans: self.plans.insert(plan_id, self.plans[plan_id].switched(active)),
            }
        } else {
            self
        }
    }

    /// Whether `plan_id` was issued and its plan is switched on.
    pub open spec fn is_active(self, plan_id: PlanId) -> bool {
        self.plans.contains_key(plan_id) && self.plans[plan_id].active
    }

    /// Merchant, price and period of plan `plan_id`, if it was issued.
    pub open spec fn financial(self, plan_id: PlanId) -> Option<(Address, Amount, u64)> {
        if self.plans.contains_key(plan_id) {
            let plan = self.plans[plan_id];
            Some((plan.merchant, plan.price_per_period, plan.period_secs))
        } else {
            None
        }
    }

    /// Active flag, name and description of plan `plan_id`, if it was issued.
    pub open spec fn metadata(self, plan_id: PlanId) -> Option<(bool, Seq<char>, Seq<char>)> {
        if self.plans.contains_key(plan_id) {
            let plan = self.plans[plan_id];
            Some((plan.active, plan.name, plan.description))
        } else {
            None
        }
    }
}

/// The plans issued so far, by identifier.
pub struct PlanRegistry {
    next_id: PlanId,
    plans: HashMap<PlanId, Plan>,
}

/// The models of the plans that `m` holds.
spec fn plan_views(m: Map<PlanId, Plan>) -> Map<PlanId, PlanView> {
    Map::new(|id: PlanId| m.contains_key(id), |id: PlanId| m[id]@)
}

impl View for PlanRegistry {
    type V = PlanRegistryModel;

    closed spec fn view(&self) -> PlanRegistryModel {
        PlanRegistryModel { next_id: self.next_id, plans: plan_views(self.plans@) }
    }
}

impl PlanRegistry {
    /// The registry's invariant: that of its model.
    pub open spec fn wf(&self) -> bool {
        self@.wf()
    }

    /// The registry before any plan was created.
    pub fn new() -> (r: PlanRegistry)
        ensures
            r.wf(),
            r@ == PlanRegistryModel::empty(),
    {
        let r = PlanRegistry { next_id: 0, plans: HashMap::new() };
        assert(r@.plans =~= Map::<PlanId, PlanView>::empty());
        r
    }

    /// The plan with identifier `plan_id`, if it was issued.
    pub fn get(&self, plan_id: PlanId) -> (r: Option<&Plan>)
        ensures
            match r {
                Some(plan) => self@.plans.contains_key(plan_id) && self@.plans[plan_id] == plan@,
                None => !self@.plans.contains_key(plan_id),
            },
    {
        self.plans.get(&plan_id)
    }

    /// Stores a new active plan of `merchant` under the next identifier and
    /// returns that identifier.
    pub fn create(
        &mut self,
        merchant: Address,
        price_per_period: Amount,
        period_secs: u64,
        name: String,
        description: String,
    ) -> (r: PlanId)
        requires
            old(self).wf(),
        ensures
            final(self).wf(),
            r == old(self)@.next_id,
            final(self)@ == old(self)@.create(
                merchant,
                price_per_period,
                period_secs,
                name@,
                description@,
            ),
    {
        let plan_id = self.next_id;
        let plan = Plan::new(merchant, price_per_period, period_secs, name, description);
        self.next_id = next_after(plan_id);
        self.plans.insert(plan_id, plan);
        assert(self@.plans =~= old(self)@.plans.insert(plan_id, plan@));
        plan_id
    }

    /// Switches plan `plan_id` on or off if it exists and belongs to `caller`.
    /// Otherwise nothing changes.
    pub fn set_active(&mut self, caller: &Address, plan_id: PlanId, active: bool)
        requires
            old(self).wf(),
        ensures
            final(self).wf(),
            final(self)@ == old(self)@.set_active(*caller, plan_id, active),
    {
        let owned = match self.plans.get(&plan_id) {
            Some(plan) => plan.is_owned_by(caller),
            None => false,
        };
        if !owned {
            return;
        }
        match self.plans.remove(&plan_id) {
            Some(plan) => {
                let mut plan = plan;
                plan.active = active;
                self.plans.insert(plan_id, plan);
                assert(self@.plans =~= old(self)@.plans.insert(plan_id, plan@));
            },
            None => {},
        }
    }
}

} // verus!
