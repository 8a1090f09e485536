use ectoplasma::address::Address;
use ectoplasma::amount::Amount;
use ectoplasma::contract::Ectoplasma;
use ectoplasma::events::{BillingProcessed, PlanCreated, Subscribed, SubscriptionCanceled};

const MONTH: u64 = 30 * 24 * 60 * 60;

fn merchant() -> Address {
    Address::Account([1u8; 32])
}

fn subscriber() -> Address {
    Address::Account([2u8; 32])
}

fn stranger() -> Address {
    Address::Contract([2u8; 32])
}

fn with_plan(price: u64) -> (Ectoplasma, u64) {
    let mut contract = Ectoplasma::init();
    let (plan_id, _) = contract.create_plan(
        &merchant(),
        Amount::from_u64(price),
        MONTH,
        "Test".to_string(),
        "Desc".to_string(),
    );
    (contract, plan_id)
}

#[test]
fn create_and_read_plan() {
    let caller = merchant();
    let mut contract = Ectoplasma::init();
    let (plan_id, _) = contract.create_plan(
        &caller,
        Amount::from_u64(100u64),
        30 * 24 * 60 * 60,
        "Test".to_string(),
        "Desc".to_string(),
    );
    let financial = contract.get_plan_financial(plan_id).unwrap();
    assert_eq!(financial.1, Amount::from_u64(100u64));
    let meta = contract.get_plan_metadata(plan_id).unwrap();
    assert!(meta.0);
}

#[test]
fn subscribe_and_process_billing() {
    let caller = merchant();
    let mut contract = Ectoplasma::init();
    let (plan_id, _) = contract.create_plan(
        &caller,
        Amount::from_u64(100u64),
        30 * 24 * 60 * 60,
        "Test".to_string(),
        "Desc".to_string(),
    );
    let (sub_id, _) = contract.subscribe(&caller, plan_id);
    let sub = contract.get_subscription_core(sub_id).unwrap();
    assert!(sub.2);
    assert_eq!(contract.get_subscription_periods_paid(sub_id), 0);
    contract.deposit(&caller, &Amount::from_u64(200u64));
    contract.process_billing(sub_id);
    assert_eq!(contract.get_subscription_periods_paid(sub_id), 1);
}

#[test]
fn cancel_subscription() {
    let caller = merchant();
    let mut contract = Ectoplasma::init();
    let (plan_id, _) = contract.create_plan(
        &caller,
        Amount::from_u64(100u64),
        30 * 24 * 60 * 60,
        "Test".to_string(),
        "Desc".to_string(),
    );
    let (sub_id, _) = contract.subscribe(&caller, plan_id);
    contract.cancel_subscription(&caller, sub_id);
    let sub = contract.get_subscription_core(sub_id).unwrap();
    assert!(!sub.2);
}

#[test]
fn new_contract_is_empty() {
    let contract = Ectoplasma::init();
    assert_eq!(contract.get_balance(&merchant()), Amount::zero());
    assert_eq!(contract.get_plan_financial(0), None);
    assert_eq!(contract.get_plan_metadata(0), None);
    assert_eq!(contract.get_subscription_core(0), None);
    assert_eq!(contract.get_subscription_periods_paid(0), 0);
}

#[test]
fn deposits_add_up_in_either_order() {
    let who = subscriber();
    let mut one = Ectoplasma::init();
    one.deposit(&who, &Amount::from_u64(7));
    let mut other = one_with(&who, 7);
    one.deposit(&who, &Amount::from_u64(30));
    one.deposit(&who, &Amount::from_u64(12));
    other.deposit(&who, &Amount::from_u64(12));
    other.deposit(&who, &Amount::from_u64(30));
    assert_eq!(one.get_balance(&who), Amount::from_u64(49));
    assert_eq!(other.get_balance(&who), Amount::from_u64(49));
    assert_eq!(one.get_balance(&merchant()), Amount::zero());
}

fn one_with(who: &Address, amount: u64) -> Ectoplasma {
    let mut contract = Ectoplasma::init();
    contract.deposit(who, &Amount::from_u64(amount));
    contract
}

#[test]
fn deposit_of_zero_changes_nothing() {
    let who = subscriber();
    let mut contract = one_with(&who, 5);
    contract.deposit(&who, &Amount::zero());
    assert_eq!(contract.get_balance(&who), Amount::from_u64(5));
    contract.deposit(&merchant(), &Amount::zero());
    assert_eq!(contract.get_balance(&merchant()), Amount::zero());
}

#[test]
fn balances_are_kept_by_identity() {
    let mut contract = Ectoplasma::init();
    contract.deposit(&subscriber(), &Amount::from_u64(5));
    contract.deposit(&stranger(), &Amount::from_u64(9));
    contract.deposit(&subscriber(), &Amount::from_u64(1));
    assert_eq!(contract.get_balance(&subscriber()), Amount::from_u64(6));
    assert_eq!(contract.get_balance(&stranger()), Amount::from_u64(9));
    assert_eq!(contract.get_balance(&merchant()), Amount::zero());
}

#[test]
fn deposit_carries_into_the_next_limb() {
    let who = subscriber();
    let mut contract = Ectoplasma::init();
    contract.deposit(&who, &Amount::from_u64(u64::MAX));
    contract.deposit(&who, &Amount::from_u64(u64::MAX));
    let expected = Amount { limbs: [u64::MAX - 1, 1, 0, 0, 0, 0, 0, 0] };
    assert_eq!(contract.get_balance(&who), expected);
}

#[test]
fn deposit_with_only_a_high_limb_is_not_zero() {
    let who = subscriber();
    let mut contract = Ectoplasma::init();
    let high = Amount { limbs: [0, 0, 0, 0, 0, 0, 0, 1] };
    contract.deposit(&who, &high);
    assert_eq!(contract.get_balance(&who), high);
}

#[test]
fn created_plan_reads_back_as_supplied() {
    let caller = merchant();
    let mut contract = Ectoplasma::init();
    let (plan_id, report) = contract.create_plan(
        &caller,
        Amount::from_u64(250),
        86400,
        "Gold".to_string(),
        "All of it".to_string(),
    );
    assert_eq!(plan_id, 0);
    assert_eq!(report, PlanCreated { plan_id: 0, merchant: caller });
    assert_eq!(
        contract.get_plan_financial(plan_id),
        Some((caller, Amount::from_u64(250), 86400))
    );
    assert_eq!(
        contract.get_plan_metadata(plan_id),
        Some((true, "Gold".to_string(), "All of it".to_string()))
    );
}

#[test]
fn plan_identifiers_count_up_from_zero() {
    let (mut contract, first) = with_plan(100);
    let (second, report) = contract.create_plan(
        &subscriber(),
        Amount::from_u64(1),
        1,
        String::new(),
        String::new(),
    );
    assert_eq!(first, 0);
    assert_eq!(second, 1);
    assert_eq!(report, PlanCreated { plan_id: 1, merchant: subscriber() });
    assert_eq!(contract.get_plan_financial(0).unwrap().0, merchant());
    assert_eq!(contract.get_plan_financial(1).unwrap().0, subscriber());
    assert_eq!(contract.get_plan_financial(2), None);
}

#[test]
fn only_the_merchant_switches_a_plan() {
    let (mut contract, plan_id) = with_plan(100);
    contract.set_plan_active(&subscriber(), plan_id, false);
    assert_eq!(contract.get_plan_metadata(plan_id).unwrap().0, true);
    contract.set_plan_active(&merchant(), plan_id, false);
    assert_eq!(
        contract.get_plan_metadata(plan_id),
        Some((false, "Test".to_string(), "Desc".to_string()))
    );
    assert_eq!(
        contract.get_plan_financial(plan_id),
        Some((merchant(), Amount::from_u64(100), MONTH))
    );
    contract.set_plan_active(&stranger(), plan_id, true);
    assert_eq!(contract.get_plan_metadata(plan_id).unwrap().0, false);
    contract.set_plan_active(&merchant(), plan_id, true);
    assert_eq!(contract.get_plan_metadata(plan_id).unwrap().0, true);
}

#[test]
fn switching_an_unknown_plan_changes_nothing() {
    let (mut contract, plan_id) = with_plan(100);
    contract.set_plan_active(&merchant(), plan_id + 1, false);
    assert_eq!(contract.get_plan_metadata(plan_id + 1), None);
    assert_eq!(contract.get_plan_metadata(plan_id).unwrap().0, true);
}

#[test]
fn subscribe_records_an_active_subscription() {
    let (mut contract, plan_id) = with_plan(100);
    let (sub_id, report) = contract.subscribe(&subscriber(), plan_id);
    assert_eq!(sub_id, 0);
    assert_eq!(
        report,
        Some(Subscribed { subscription_id: 0, plan_id, subscriber: subscriber() })
    );
    assert_eq!(contract.get_subscription_core(sub_id), Some((subscriber(), plan_id, true)));
    assert_eq!(contract.get_subscription_periods_paid(sub_id), 0);
    let (next, _) = contract.subscribe(&stranger(), plan_id);
    assert_eq!(next, 1);
    assert_eq!(contract.get_subscription_core(next), Some((stranger(), plan_id, true)));
}

#[test]
fn subscribe_to_an_unknown_plan_issues_nothing() {
    let (mut contract, plan_id) = with_plan(100);
    let (sub_id, report) = contract.subscribe(&subscriber(), plan_id + 7);
    assert_eq!(sub_id, 0);
    assert_eq!(report, None);
    assert_eq!(contract.get_subscription_core(0), None);
    let (first, _) = contract.subscribe(&subscriber(), plan_id);
    assert_eq!(first, 0);
}

#[test]
fn subscribe_to_an_inactive_plan_issues_nothing() {
    let (mut contract, plan_id) = with_plan(100);
    contract.set_plan_active(&merchant(), plan_id, false);
    let (sub_id, report) = contract.subscribe(&subscriber(), plan_id);
    assert_eq!(sub_id, 0);
    assert_eq!(report, None);
    assert_eq!(contract.get_subscription_core(0), None);
    contract.set_plan_active(&merchant(), plan_id, true);
    let (first, report) = contract.subscribe(&subscriber(), plan_id);
    assert_eq!(first, 0);
    assert!(report.is_some());
}

#[test]
fn cancel_is_idempotent() {
    let (mut contract, plan_id) = with_plan(100);
    let (sub_id, _) = contract.subscribe(&subscriber(), plan_id);
    let first = contract.cancel_subscription(&subscriber(), sub_id);
    assert_eq!(
        first,
        Some(SubscriptionCanceled { subscription_id: sub_id, plan_id, subscriber: subscriber() })
    );
    assert_eq!(contract.get_subscription_core(sub_id), Some((subscriber(), plan_id, false)));
    let second = contract.cancel_subscription(&subscriber(), sub_id);
    assert_eq!(second, None);
    assert_eq!(contract.get_subscription_core(sub_id), Some((subscriber(), plan_id, false)));
}

#[test]
fn only_the_subscriber_cancels() {
    let (mut contract, plan_id) = with_plan(100);
    let (sub_id, _) = contract.subscribe(&subscriber(), plan_id);
    assert_eq!(contract.cancel_subscription(&merchant(), sub_id), None);
    assert_eq!(contract.cancel_subscription(&stranger(), sub_id), None);
    assert_eq!(contract.get_subscription_core(sub_id), Some((subscriber(), plan_id, true)));
    assert_eq!(contract.cancel_subscription(&subscriber(), sub_id + 1), None);
}

#[test]
fn billing_charges_one_period() {
    let (mut contract, plan_id) = with_plan(100);
    let (sub_id, _) = contract.subscribe(&subscriber(), plan_id);
    contract.deposit(&subscriber(), &Amount::from_u64(200));
    let report = contract.process_billing(sub_id);
    assert_eq!(
        report,
        Some(BillingProcessed {
            subscription_id: sub_id,
            plan_id,
            subscriber: subscriber(),
            merchant: merchant(),
            period_index: 0,
            price_per_period: Amount::from_u64(100),
        })
    );
    assert_eq!(contract.get_subscription_periods_paid(sub_id), 1);
    assert_eq!(contract.get_balance(&subscriber()), Amount::from_u64(100));
    assert_eq!(contract.get_balance(&merchant()), Amount::zero());
}

#[test]
fn billing_without_a_deposit_changes_nothing() {
    let (mut contract, plan_id) = with_plan(100);
    let (sub_id, _) = contract.subscribe(&subscriber(), plan_id);
    assert_eq!(contract.process_billing(sub_id), None);
    assert_eq!(contract.get_subscription_periods_paid(sub_id), 0);
    assert_eq!(contract.get_balance(&subscriber()), Amount::zero());
}

#[test]
fn billing_below_the_price_changes_nothing() {
    let (mut contract, plan_id) = with_plan(100);
    let (sub_id, _) = contract.subscribe(&subscriber(), plan_id);
    contract.deposit(&subscriber(), &Amount::from_u64(99));
    assert_eq!(contract.process_billing(sub_id), None);
    assert_eq!(contract.get_subscription_periods_paid(sub_id), 0);
    assert_eq!(contract.get_balance(&subscriber()), Amount::from_u64(99));
    contract.deposit(&subscriber(), &Amount::from_u64(1));
    assert!(contract.process_billing(sub_id).is_some());
    assert_eq!(contract.get_balance(&subscriber()), Amount::zero());
}

#[test]
fn billing_an_inactive_plan_waits_for_the_merchant() {
    let (mut contract, plan_id) = with_plan(100);
    let (sub_id, _) = contract.subscribe(&subscriber(), plan_id);
    contract.deposit(&subscriber(), &Amount::from_u64(200));
    contract.set_plan_active(&merchant(), plan_id, false);
    assert_eq!(contract.process_billing(sub_id), None);
    assert_eq!(contract.get_subscription_periods_paid(sub_id), 0);
    assert_eq!(contract.get_balance(&subscriber()), Amount::from_u64(200));
    assert_eq!(contract.get_subscription_core(sub_id), Some((subscriber(), plan_id, true)));
    contract.set_plan_active(&merchant(), plan_id, true);
    let report = contract.process_billing(sub_id).unwrap();
    assert_eq!(report.merchant, merchant());
    assert_eq!(report.period_index, 0);
    assert_eq!(contract.get_subscription_periods_paid(sub_id), 1);
    assert_eq!(contract.get_balance(&subscriber()), Amount::from_u64(100));
}

#[test]
fn billing_a_cancelled_subscription_changes_nothing() {
    let (mut contract, plan_id) = with_plan(100);
    let (sub_id, _) = contract.subscribe(&subscriber(), plan_id);
    contract.deposit(&subscriber(), &Amount::from_u64(200));
    contract.cancel_subscription(&subscriber(), sub_id);
    assert_eq!(contract.process_billing(sub_id), None);
    assert_eq!(contract.get_subscription_periods_paid(sub_id), 0);
    assert_eq!(contract.get_balance(&subscriber()), Amount::from_u64(200));
}

#[test]
fn billing_an_unknown_subscription_changes_nothing() {
    let (mut contract, _) = with_plan(100);
    contract.deposit(&subscriber(), &Amount::from_u64(200));
    assert_eq!(contract.process_billing(3), None);
    assert_eq!(contract.get_subscription_periods_paid(3), 0);
    assert_eq!(contract.get_balance(&subscriber()), Amount::from_u64(200));
}

#[test]
fn billings_in_a_row_count_up() {
    let (mut contract, plan_id) = with_plan(100);
    let (sub_id, _) = contract.subscribe(&subscriber(), plan_id);
    contract.deposit(&subscriber(), &Amount::from_u64(350));
    let mut owed: u64 = 0;
    let mut index: u32 = 0;
    while index < 3 {
        let report = contract.process_billing(sub_id).unwrap();
        assert_eq!(report.period_index, index);
        assert_eq!(report.merchant, merchant());
        assert_eq!(report.price_per_period, Amount::from_u64(100));
        owed += 100;
        index += 1;
    }
    assert_eq!(owed, 300);
    assert_eq!(contract.get_subscription_periods_paid(sub_id), 3);
    assert_eq!(contract.get_balance(&subscriber()), Amount::from_u64(50));
    assert_eq!(contract.process_billing(sub_id), None);
    assert_eq!(contract.get_subscription_periods_paid(sub_id), 3);
}

#[test]
fn billing_a_free_plan_counts_the_period() {
    let (mut contract, plan_id) = with_plan(0);
    let (sub_id, _) = contract.subscribe(&subscriber(), plan_id);
    let report = contract.process_billing(sub_id).unwrap();
    assert_eq!(report.price_per_period, Amount::zero());
    assert_eq!(contract.get_subscription_periods_paid(sub_id), 1);
    assert_eq!(contract.get_balance(&subscriber()), Amount::zero());
}

#[test]
fn billing_borrows_from_the_next_limb() {
    let mut contract = Ectoplasma::init();
    let (plan_id, _) = contract.create_plan(
        &merchant(),
        Amount::from_u64(5),
        MONTH,
        "Test".to_string(),
        "Desc".to_string(),
    );
    let (sub_id, _) = contract.subscribe(&subscriber(), plan_id);
    contract.deposit(&subscriber(), &Amount { limbs: [2, 1, 0, 0, 0, 0, 0, 0] });
    assert!(contract.process_billing(sub_id).is_some());
    assert_eq!(
        contract.get_balance(&subscriber()),
        Amount { limbs: [u64::MAX - 2, 0, 0, 0, 0, 0, 0, 0] }
    );
}

#[test]
fn billing_compares_the_high_limbs_first() {
    let mut contract = Ectoplasma::init();
    let price = Amount { limbs: [0, 1, 0, 0, 0, 0, 0, 0] };
    let (plan_id, _) =
        contract.create_plan(&merchant(), price, MONTH, "Test".to_string(), "Desc".to_string());
    let (sub_id, _) = contract.subscribe(&subscriber(), plan_id);
    contract.deposit(&subscriber(), &Amount::from_u64(u64::MAX));
    assert_eq!(contract.process_billing(sub_id), None);
    contract.deposit(&subscriber(), &Amount::from_u64(1));
    assert!(contract.process_billing(sub_id).is_some());
    assert_eq!(contract.get_balance(&subscriber()), Amount::zero());
}

#[test]
fn merchant_may_subscribe_to_own_plan() {
    let (mut contract, plan_id) = with_plan(100);
    let (sub_id, _) = contract.subscribe(&merchant(), plan_id);
    contract.deposit(&merchant(), &Amount::from_u64(100));
    let report = contract.process_billing(sub_id).unwrap();
    assert_eq!(report.subscriber, merchant());
    assert_eq!(report.merchant, merchant());
    assert_eq!(contract.get_balance(&merchant()), Amount::zero());
}
