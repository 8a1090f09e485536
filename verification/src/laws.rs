//! What holds of the contract's model over all states and inputs.

use crate::address::Address;
use crate::amount::Amount;
use crate::contract::State;
use crate::plans::PlanId;
use crate::subscriptions::{Subscription, SubscriptionId};
use vstd::prelude::*;

verus! {

/// Two deposits to one identity add up, whichever comes first, and touch
/// no other balance.
pub proof fn lemma_deposits_add_up(s: State, who: Address, first: nat, second: nat)
    ensures
        s.deposit(who, first).deposit(who, second).balance_of(who) == s.balance_of(who) + first
            + second,
        s.deposit(who, first).deposit(who, second) == s.deposit(who, second).deposit(who, first),
        forall|other: Address|
            other != who ==> s.deposit(who, first).deposit(who, second).balance_of(other)
                == s.balance_of(other),
{
    assert(s.deposit(who, first).deposit(who, second).balances =~= s.deposit(who, second).deposit(
        who,
        first,
    ).balances);
}

/// A plan reads back as it was created: under the identifier that the
/// counter held, with the fields supplied, and active.
pub proof fn lemma_created_plan_reads_back(
    s: State,
    merchant: Address,
    price_per_period: Amount,
    period_secs: u64,
    name: Seq<char>,
    description: Seq<char>,
)
    ensures
        ({
            let after = s.create_plan(merchant, price_per_period, period_secs, name, description);
            let plan_id = s.plans.next_id;
            &&& after.plans.financial(plan_id) == Some((merchant, price_per_period, period_secs))
            &&& after.plans.metadata(plan_id) == Some((true, name, description))
        }),
{
}

/// Subscribing to a plan that does not exist or is inactive issues no
/// identifier and records nothing.
pub proof fn lemma_refused_subscription_changes_nothing(s: State, caller: Address, plan_id: PlanId)
    requires
        !s.plans.plans.contains_key(plan_id) || !s.plans.plans[plan_id].active,
    ensures
        s.subscribe(caller, plan_id) == s,
        s.subscribe(caller, plan_id).subscriptions.next_id == s.subscriptions.next_id,
{
}

/// After its subscriber cancels it a subscription reads as inactive, and
/// cancelling it once more changes nothing.
pub proof fn lemma_cancel_is_idempotent(s: State, subscriber: Address, id: SubscriptionId)
    requires
        s.subscriptions.subscriptions.contains_key(id),
        s.subscriptions.subscriptions[id].subscriber == subscriber,
    ensures
        ({
            let after = s.cancel_subscription(subscriber, id);
            &&& after.subscriptions.core_of(id) == Some(
                (subscriber, s.subscriptions.subscriptions[id].plan_id, false),
            )
            &&& !after.subscriptions.cancellable_by(id, subscriber)
            &&& after.cancel_subscription(subscriber, id) == after
        }),
{
}

/// A billing attempt changes nothing and reports nothing where the
/// subscription is unknown or inactive, where its plan is inactive, or
/// where the subscriber's balance is below the price.
pub proof fn lemma_refused_billing_changes_nothing(s: State, id: SubscriptionId)
    requires
        ({
            ||| !s.subscriptions.is_active(id)
            ||| !s.plans.is_active(s.subscriptions.subscriptions[id].plan_id)
            ||| s.balance_of(s.subscriptions.subscriptions[id].subscriber) < s.plans.plans[
                s.subscriptions.subscriptions[id].plan_id
            ].price_per_period@
        }),
    ensures
        s.process_billing(id) == s,
        s.billing_event(id) is None,
{
}

/// A charge takes exactly the price of one period from the subscriber's
/// balance, which covered it, counts exactly one more period unless the
/// count is at its largest, and touches no other balance or subscription.
pub proof fn lemma_charge_moves_one_price(s: State, id: SubscriptionId)
    requires
        s.billable(id),
    ensures
        ({
            let subscription = s.subscriptions.subscriptions[id];
            let price = s.plans.plans[subscription.plan_id].price_per_period@;
            let after = s.process_billing(id);
            &&& s.billing_event(id) is Some
            &&& s.balance_of(subscription.subscriber) >= price
            &&& after.balance_of(subscription.subscriber) == s.balance_of(subscription.subscriber)
                - price
            &&& forall|other: Address|
                other != subscription.subscriber ==> after.balance_of(other) == s.balance_of(other)
            &&& subscription.periods_paid < u32::MAX ==> after.subscriptions.periods_paid(id)
                == subscription.periods_paid + 1
            &&& subscription.periods_paid == u32::MAX ==> after.subscriptions.periods_paid(id)
                == u32::MAX
            &&& forall|other: SubscriptionId|
                other != id ==> after.subscription(other) == s.subscription(other)
            &&& after.plans == s.plans
        }),
{
}

/// Every operation keeps the invariant of the state, and a new contract has it.
pub proof fn lemma_operations_keep_the_invariant(
    s: State,
    caller: Address,
    amount: nat,
    price_per_period: Amount,
    period_secs: u64,
    name: Seq<char>,
    description: Seq<char>,
    plan_id: PlanId,
    active: bool,
    id: SubscriptionId,
)
    requires
        s.wf(),
    ensures
        State::empty().wf(),
        s.deposit(caller, amount).wf(),
        s.create_plan(caller, price_per_period, period_secs, name, description).wf(),
        s.set_plan_active(caller, plan_id, active).wf(),
        s.subscribe(caller, plan_id).wf(),
        s.cancel_subscription(caller, id).wf(),
        s.process_billing(id).wf(),
{
}

/// While a counter is below the largest identifier, the identifier it
/// issues was never issued before, and the records issued before stay as
/// they were.
pub proof fn lemma_identifiers_are_not_reused(
    s: State,
    caller: Address,
    price_per_period: Amount,
    period_secs: u64,
    name: Seq<char>,
    description: Seq<char>,
    plan_id: PlanId,
)
    requires
        s.wf(),
    ensures
        ({
            let after = s.create_plan(caller, price_per_period, period_secs, name, description);
            s.plans.next_id < u64::MAX ==> {
                &&& !s.plans.plans.contains_key(s.plans.next_id)
                &&& after.plans.next_id == s.plans.next_id + 1
                &&& forall|other: PlanId| #[trigger]
                    s.plans.plans.contains_key(other) ==> after.plans.plans[other]
                        == s.plans.plans[other]
            }
        }),
        ({
            let after = s.subscribe(caller, plan_id);
            s.accepts_subscribers(plan_id) && s.subscriptions.next_id < u64::MAX ==> {
                &&& !s.subscriptions.subscriptions.contains_key(s.subscriptions.next_id)
                &&& after.subscriptions.next_id == s.subscriptions.next_id + 1
                &&& forall|other: SubscriptionId| #[trigger]
                    s.subscriptions.subscriptions.contains_key(other)
                        ==> after.subscriptions.subscriptions[other]
                        == s.subscriptions.subscriptions[other]
            }
        }),
{
}

/// A caller who is not the plan's merchant cannot switch the plan, and a
/// caller who is not the subscriber cannot cancel the subscription.
pub proof fn lemma_only_the_owner_changes_a_record(
    s: State,
    caller: Address,
    plan_id: PlanId,
    active: bool,
    id: SubscriptionId,
)
    ensures
        s.plans.plans.contains_key(plan_id) && s.plans.plans[plan_id].merchant != caller
            ==> s.set_plan_active(caller, plan_id, active) == s,
        s.subscriptions.subscriptions.contains_key(id) && s.subscriptions.subscriptions[id].subscriber
            != caller ==> s.cancel_subscription(caller, id) == s,
{
}

/// What may become of a subscription: it keeps its subscriber and its
/// plan, loses no paid period, and is active only if it was.
pub open spec fn moved_forward(was: Subscription, is: Subscription) -> bool {
    &&& is.subscriber == was.subscriber
    &&& is.plan_id == was.plan_id
    &&& is.periods_paid >= was.periods_paid
    &&& is.active ==> was.active
}

/// No operation removes a subscription, changes its subscriber or plan,
/// lowers its count of paid periods or brings it back once cancelled. The
/// subscription whose identifier the counter is about to issue is left out:
/// that is the largest identifier once the counter has reached it.
pub proof fn lemma_subscriptions_only_move_forward(
    s: State,
    id: SubscriptionId,
    caller: Address,
    plan_id: PlanId,
    other: SubscriptionId,
)
    requires
        s.subscriptions.subscriptions.contains_key(id),
        id != s.subscriptions.next_id,
    ensures
        ({
            let was = s.subscriptions.subscriptions[id];
            let subscribed = s.subscribe(caller, plan_id).subscriptions.subscriptions;
            let cancelled = s.cancel_subscription(caller, other).subscriptions.subscriptions;
            let billed = s.process_billing(other).subscriptions.subscriptions;
            &&& subscribed.contains_key(id) && moved_forward(was, subscribed[id])
            &&& cancelled.contains_key(id) && moved_forward(was, cancelled[id])
            &&& billed.contains_key(id) && moved_forward(was, billed[id])
        }),
{
}

/// No operation removes a plan or changes its merchant, price, period,
/// name or description. The plan whose identifier the counter is about to
/// issue is left out: that is the largest identifier once the counter has
/// reached it.
pub proof fn lemma_plans_keep_their_terms(
    s: State,
    plan_id: PlanId,
    caller: Address,
    price_per_period: Amount,
    period_secs: u64,
    name: Seq<char>,
    description: Seq<char>,
    other: PlanId,
    active: bool,
)
    requires
        s.plans.plans.contains_key(plan_id),
        plan_id != s.plans.next_id,
    ensures
        ({
            let was = s.plans.plans[plan_id];
            let created = s.create_plan(
                caller,
                price_per_period,
                period_secs,
                name,
                description,
            ).plans.plans;
            let switched = s.set_plan_active(caller, other, active).plans.plans;
            &&& created.contains_key(plan_id) && created[plan_id] == was
            &&& switched.contains_key(plan_id) && switched[plan_id] == was.switched(
                switched[plan_id].active,
            )
        }),
{
}

/// Deposits, subscriptions, cancellations and charges leave the plans as
/// they are; deposits and operations on plans leave the subscriptions as
/// they are; and only deposits and charges touch a balance.
pub proof fn lemma_operations_keep_to_their_part(
    s: State,
    caller: Address,
    amount: nat,
    price_per_period: Amount,
    period_secs: u64,
    name: Seq<char>,
    description: Seq<char>,
    plan_id: PlanId,
    active: bool,
    id: SubscriptionId,
)
    ensures
        s.deposit(caller, amount).plans == s.plans,
        s.subscribe(caller, plan_id).plans == s.plans,
        s.cancel_subscription(caller, id).plans == s.plans,
        s.process_billing(id).plans == s.plans,
        s.deposit(caller, amount).subscriptions == s.subscriptions,
        s.create_plan(caller, price_per_period, period_secs, name, description).subscriptions
            == s.subscriptions,
        s.set_plan_active(caller, plan_id, active).subscriptions == s.subscriptions,
        s.create_plan(caller, price_per_period, period_secs, name, description).balances
            == s.balances,
        s.set_plan_active(caller, plan_id, active).balances == s.balances,
        s.subscribe(caller, plan_id).balances == s.balances,
        s.cancel_subscription(caller, id).balances == s.balances,
{
}

/// The state after `n` billing attempts in a row on subscription `id`.
pub open spec fn after_billings(s: State, id: SubscriptionId, n: nat) -> State
    decreases n,
{
    if n == 0 {
        s
    } else {
        after_billings(s.process_billing(id), id, (n - 1) as nat)
    }
}

/// What `n` billing attempts in a row on subscription `id` report as owed to `merchant`.
pub open spec fn owed_after_billings(s: State, id: SubscriptionId, n: nat, merchant: Address) -> nat
    decreases n,
{
    if n == 0 {
        0
    } else {
        let now: nat = match s.billing_event(id) {
            Some(report) => if report.merchant == merchant {
                report.price_per_period@
            } else {
                0
            },
            None => 0,
        };
        now + owed_after_billings(s.process_billing(id), id, (n - 1) as nat, merchant)
    }
}

/// `n` billing attempts in a row on an active subscription to an active
/// plan, with a balance that covers `n` periods, all charge: `n` more
/// periods are paid (the count stops at its largest), the merchant is owed
/// `n` times the price, and the subscriber's balance is lower by as much.
pub proof fn lemma_billings_in_a_row(s: State, id: SubscriptionId, n: nat)
    requires
        s.subscriptions.is_active(id),
        s.plans.is_active(s.subscriptions.subscriptions[id].plan_id),
        s.balance_of(s.subscriptions.subscriptions[id].subscriber) >= n * s.plans.plans[
            s.subscriptions.subscriptions[id].plan_id
        ].price_per_period@,
    ensures
        ({
            let subscription = s.subscriptions.subscriptions[id];
            let plan = s.plans.plans[subscription.plan_id];
            let after = after_billings(s, id, n);
            &&& after.subscriptions.periods_paid(id) == if subscription.periods_paid + n
                <= u32::MAX {
                subscription.periods_paid + n
            } else {
                u32::MAX as int
            }
            &&& owed_after_billings(s, id, n, plan.merchant) == n * plan.price_per_period@
            &&& after.balance_of(subscription.subscriber) == s.balance_of(subscription.subscriber)
                - n * plan.price_per_period@
            &&& after.subscriptions.is_active(id)
            &&& after.plans == s.plans
        }),
    decreases n,
{
    let subscription = s.subscriptions.subscriptions[id];
    let plan = s.plans.plans[subscription.plan_id];
    let price = plan.price_per_period@;
    if n == 0 {
        assert(n * price == 0) by (nonlinear_arith)
            requires
                n == 0,
        ;
    } else {
        let rest = (n - 1) as nat;
        assert(n * price == rest * price + price) by (nonlinear_arith)
            requires
                rest == n - 1,
        ;
        assert(rest * price >= 0) by (nonlinear_arith);
        assert(s.billable(id));
        let next = s.process_billing(id);
        assert(next.subscriptions.subscriptions[id] == subscription.paid());
        assert(next.plans == s.plans);
        assert(next.balance_of(subscription.subscriber) == s.balance_of(subscription.subscriber)
            - price);
        assert(s.billing_event(id)->0.merchant == plan.merchant);
        lemma_billings_in_a_row(next, id, rest);
    }
}

} // verus!
