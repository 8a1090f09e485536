//! The billing contract: ledger, plan registry and subscription registry
//! behind one set of operations.
//!
//! Every operation runs to its end or changes nothing. One that is refused
//! (an unknown identifier, a caller without the right, an inactive plan or
//! subscription, a balance too small) leaves the state as it was and reports
//! nothing. What an operation reports is returned to the caller, who passes
//! it on: a [`BillingProcessed`] names the merchant to be paid and the amount.

use crate::address::Address;
use crate::amount::Amount;
use crate::billing::{chargeable, is_chargeable, receipt, receipt_of};
use crate::events::{BillingProcessed, PlanCreated, Subscribed, SubscriptionCanceled};
use crate::ledger::{balance_in, covers, debit_in, deposit_in, Ledger};
use crate::plans::{is_open_to_subscribers, PlanId, PlanRegistry, PlanRegistryModel, PlanView};
use crate::subscriptions::{
    Subscription,
    SubscriptionId,
    SubscriptionRegistry,
    SubscriptionRegistryModel,
};
use vstd::prelude::*;

verus! {

/// The model of the contract: balances, plans and subscriptions.
pub struct State {
    pub balances: Map<Address, nat>,
    pub plans: PlanRegistryModel,
    pub subscriptions: SubscriptionRegistryModel,
}

impl State {
    /// The state of a new contract: no balance, no plan, no subscription,
    /// both counters at zero.
    pub open spec fn empty() -> State {
        State {
            balances: Map::empty(),
            plans: PlanRegistryModel::empty(),
            subscriptions: SubscriptionRegistryModel::empty(),
        }
    }

    /// What holds after every operation: both registries issued their
    /// identifiers in order, and every subscription refers to a plan that exists.
    pub open spec fn wf(self) -> bool {
        &&& self.plans.wf()
        &&& self.subscriptions.wf()
        &&& forall|id: SubscriptionId| #[trigger]
            self.subscriptions.subscriptions.contains_key(id) ==> self.plans.plans.contains_key(
                self.subscriptions.subscriptions[id].plan_id,
            )
    }

    /// The prepaid balance of `who`: zero for an identity never seen.
    pub open spec fn balance_of(self, who: Address) -> nat {
        balance_in(self.balances, who)
    }

    /// The state after `who` deposits `amount`.
    pub open spec fn deposit(self, who: Address, amount: nat) -> State {
        State { balances: deposit_in(self.balances, who, amount), ..self }
    }

    /// The state after `merchant` creates a plan. Its identifier is `self.plans.next_id`.
    pub open spec fn create_plan(
        self,
        merchant: Address,
        price_per_period: Amount,
        period_secs: u64,
        name: Seq<char>,
        description: Seq<char>,
    ) -> State {
        State {
            plans: self.plans.create(merchant, price_per_period, period_secs, name, description),
            ..self
        }
    }

    /// The state after `caller` asks to switch plan `plan_id` on or off.
    pub open spec fn set_plan_active(self, caller: Address, plan_id: PlanId, active: bool) -> State {
        State { plans: self.plans.set_active(caller, plan_id, active), ..self }
    }

    /// Whether plan `plan_id` takes new subscribers: it exists and is active.
    pub open spec fn accepts_subscribers(self, plan_id: PlanId) -> bool {
        self.plans.is_active(plan_id)
    }

    /// The state after `caller` asks to subscribe to plan `plan_id`. Where
    /// the plan takes subscribers the subscription gets the identifier
    /// `self.subscriptions.next_id`. Otherwise nothing changes.
    pub open spec fn subscribe(self, caller: Address, plan_id: PlanId) -> State {
        if self.accepts_subscribers(plan_id) {
            State { subscriptions: self.subscriptions.open(caller, plan_id), ..self }
        } else {
            self
        }
    }

    /// The state after `caller` asks to cancel subscription `id`.
    pub open spec fn cancel_subscription(self, caller: Address, id: SubscriptionId) -> State {
        State { subscriptions: self.subscriptions.cancel(caller, id), ..self }
    }

    /// Subscription `id`, if it was issued.
    pub open spec fn subscription(self, id: SubscriptionId) -> Option<Subscription> {
        if self.subscriptions.subscriptions.contains_key(id) {
            Some(self.subscriptions.subscriptions[id])
        } else {
            None
        }
    }

    /// The plan that subscription `id` refers to, if both exist.
    pub open spec fn plan_of(self, id: SubscriptionId) -> Option<PlanView> {
        match self.subscription(id) {
            Some(s) => if self.plans.plans.contains_key(s.plan_id) {
                Some(self.plans.plans[s.plan_id])
            } else {
                None
            },
            None => None,
        }
    }

    /// Whether a billing attempt on subscription `id` charges: the
    /// subscription exists and is active, its plan is active, and the
    /// subscriber's balance covers the price of one period.
    pub open spec fn billable(self, id: SubscriptionId) -> bool {
        &&& chargeable(self.subscription(id), self.plan_of(id))
        &&& covers(
            self.balances,
            self.subscription(id)->0.subscriber,
            self.plan_of(id)->0.price_per_period@,
        )
    }

    /// The state after a billing attempt on subscription `id`. A charge
    /// takes the price of one period from the subscriber's balance and
    /// counts one more period paid. An attempt that does not charge changes nothing.
    pub open spec fn process_billing(self, id: SubscriptionId) -> State {
        if self.billable(id) {
            State {
                balances: debit_in(
                    self.balances,
                    self.subscription(id)->0.subscriber,
                    self.plan_of(id)->0.price_per_period@,
                ),
                subscriptions: self.subscriptions.record_payment(id),
                ..self
            }
        } else {
            self
        }
    }

    /// What a billing attempt on subscription `id` reports: the charge, or nothing.
    pub open spec fn billing_event(self, id: SubscriptionId) -> Option<BillingProcessed> {
        if self.billable(id) {
            Some(receipt_of(id, self.subscription(id)->0, self.plan_of(id)->0))
        } else {
            None
        }
    }
}

/// The contract's state.
pub struct Ectoplasma {
    ledger: Ledger,
    plans: PlanRegistry,
    subscriptions: SubscriptionRegistry,
}

impl View for Ectoplasma {
    type V = State;

    closed spec fn view(&self) -> State {
        State { balances: self.ledger@, plans: self.plans@, subscriptions: self.subscriptions@ }
    }
}

impl Ectoplasma {
    /// The contract's invariant: that of its model, and that of the ledger.
    pub closed spec fn wf(&self) -> bool {
        self.ledger.wf() && self@.wf()
    }

    /// A well-formed contract has a well-formed model.
    pub proof fn lemma_wf_model(&self)
        requires
            self.wf(),
        ensures
            self@.wf(),
    {
    }

    /// A new contract: both counters at zero, nothing stored.
    pub fn init() -> (r: Ectoplasma)
        ensures
            r.wf(),
            r@ == State::empty(),
    {
        Ectoplasma {
            ledger: Ledger::new(),
            plans: PlanRegistry::new(),
            subscriptions: SubscriptionRegistry::new(),
        }
    }

    /// Credits `amount` to the balance of `caller`. A deposit of zero changes nothing.
    pub fn deposit(&mut self, caller: &Address, amount: &Amount)
        requires
            old(self).wf(),
            old(self)@.balance_of(*caller) + amount@ <= Amount::max_value(),
        ensures
            final(self).wf(),
            final(self)@ == old(self)@.deposit(*caller, amount@),
    {
        self.ledger.deposit(caller, amount);
    }

    /// The prepaid balance of `owner`: zero for an identity never seen.
    pub fn get_balance(&self, owner: &Address) -> (r: Amount)
        requires
            self.wf(),
        ensures
            r@ == self@.balance_of(*owner),
    {
        self.ledger.get_balance(owner)
    }

    /// Creates an active plan of `caller` and returns its identifier with the report.
    pub fn create_plan(
        &mut self,
        caller: &Address,
        price_per_period: Amount,
        period_secs: u64,
        name: String,
        description: String,
    ) -> (r: (PlanId, PlanCreated))
        requires
            old(self).wf(),
        ensures
            final(self).wf(),
            r.0 == old(self)@.plans.next_id,
            r.1 == (PlanCreated { plan_id: r.0, merchant: *caller }),
            final(self)@ == old(self)@.create_plan(
                *caller,
                price_per_period,
                period_secs,
                name@,
                description@,
            ),
    {
        let plan_id = self.plans.create(*caller, price_per_period, period_secs, name, description);
        (plan_id, PlanCreated { plan_id, merchant: *caller })
    }

    /// Merchant, price and period of plan `plan_id`, if it was issued.
    pub fn get_plan_financial(&self, plan_id: PlanId) -> (r: Option<(Address, Amount, u64)>)
        ensures
            r == self@.plans.financial(plan_id),
    {
        match self.plans.get(plan_id) {
            Some(plan) => Some((plan.merchant, plan.price_per_period, plan.period_secs)),
            None => None,
        }
    }

    /// Active flag, name and description of plan `plan_id`, if it was issued.
    pub fn get_plan_metadata(&self, plan_id: PlanId) -> (r: Option<(bool, String, String)>)
        ensures
            match r {
                Some((active, name, description)) => self@.plans.metadata(plan_id) == Some(
                    (active, name@, description@),
                ),
                None => self@.plans.metadata(plan_id) is None,
            },
    {
        match self.plans.get(plan_id) {
            Some(plan) => Some((plan.active, plan.name.clone(), plan.description.clone())),
            None => None,
        }
    }

    /// Switches plan `plan_id` on or off if it exists and belongs to
    /// `caller`. Otherwise nothing changes.
    pub fn set_plan_active(&mut self, caller: &Address, plan_id: PlanId, active: bool)
        requires
            old(self).wf(),
        ensures
            final(self).wf(),
            final(self)@ == old(self)@.set_plan_active(*caller, plan_id, active),
    {
        self.plans.set_active(caller, plan_id, active);
    }

    /// Subscribes `caller` to plan `plan_id` and returns the new identifier
    /// with the report. Where the plan does not exist or is inactive, nothing
    /// changes, no identifier is issued, and zero is returned with no report.
    pub fn subscribe(&mut self, caller: &Address, plan_id: PlanId) -> (r: (
        SubscriptionId,
        Option<Subscribed>,
    ))
        requires
            old(self).wf(),
        ensures
            final(self).wf(),
            final(self)@ == old(self)@.subscribe(*caller, plan_id),
            old(self)@.accepts_subscribers(plan_id) ==> r.0 == old(self)@.subscriptions.next_id
                && r.1 == Some(
                (Subscribed { subscription_id: r.0, plan_id, subscriber: *caller }),
            ),
            !old(self)@.accepts_subscribers(plan_id) ==> r.0 == 0 && r.1 is None,
    {
        if !is_open_to_subscribers(self.plans.get(plan_id)) {
            return (0, None);
        }
        let subscription_id = self.subscriptions.open(*caller, plan_id);
        (subscription_id, Some(Subscribed { subscription_id, plan_id, subscriber: *caller }))
    }

    /// Cancels subscription `subscription_id` if it exists, is active and
    /// is the caller's own, and returns the report. Otherwise nothing
    /// changes and nothing is reported.
    pub fn cancel_subscription(&mut self, caller: &Address, subscription_id: SubscriptionId) -> (r:
        Option<SubscriptionCanceled>)
        requires
            old(self).wf(),
        ensures
            final(self).wf(),
            final(self)@ == old(self)@.cancel_subscription(*caller, subscription_id),
            r == if old(self)@.subscriptions.cancellable_by(subscription_id, *caller) {
                Some(
                    (SubscriptionCanceled {
                        subscription_id,
                        plan_id: old(self)@.subscriptions.subscriptions[subscription_id].plan_id,
                        subscriber: *caller,
                    }),
                )
            } else {
                None
            },
    {
        let found = self.subscriptions.get(subscription_id);
        if !self.subscriptions.cancel(caller, subscription_id) {
            return None;
        }
        match found {
            Some(s) => Some(
                SubscriptionCanceled { subscription_id, plan_id: s.plan_id, subscriber: s.subscriber },
            ),
            None => None,
        }
    }

    /// Subscriber, plan and active flag of subscription `subscription_id`, if it was issued.
    pub fn get_subscription_core(&self, subscription_id: SubscriptionId) -> (r: Option<
        (Address, PlanId, bool),
    >)
        ensures
            r == self@.subscriptions.core_of(subscription_id),
    {
        match self.subscriptions.get(subscription_id) {
            Some(s) => Some((s.subscriber, s.plan_id, s.active)),
            None => None,
        }
    }

    /// The periods paid of subscription `subscription_id`: zero if it was never issued.
    pub fn get_subscription_periods_paid(&self, subscription_id: SubscriptionId) -> (r: u32)
        ensures
            r == self@.subscriptions.periods_paid(subscription_id),
    {
        match self.subscriptions.get(subscription_id) {
            Some(s) => s.periods_paid,
            None => 0,
        }
    }

    /// Attempts to charge one period of subscription `subscription_id`.
    ///
    /// The attempt charges if the subscription exists and is active, its
    /// plan is active, and the subscriber's balance covers the price. It
    /// then takes the price from that balance, counts one more period paid
    /// and returns the report, which names the merchant to be paid. Every
    /// other attempt changes nothing and reports nothing.
    pub fn process_billing(&mut self, subscription_id: SubscriptionId) -> (r: Option<
        BillingProcessed,
    >)
        requires
            old(self).wf(),
        ensures
            final(self).wf(),
            final(self)@ == old(self)@.process_billing(subscription_id),
            r == old(self)@.billing_event(subscription_id),
    {
        let found = self.subscriptions.get(subscription_id);
        let plan = match found {
            Some(s) => self.plans.get(s.plan_id),
            None => None,
        };
        if !is_chargeable(found.as_ref(), plan) {
            return None;
        }
        let event = match (found, plan) {
            (Some(s), Some(p)) => receipt(subscription_id, &s, p),
            _ => { return None; },
        };
        if !self.ledger.debit(&event.subscriber, &event.price_per_period) {
            return None;
        }
        self.subscriptions.record_payment(subscription_id);
        Some(event)
    }
}

} // verus!
