use ajo_contract::contract::{execute_contribute, execute_create_plan, instantiate};
use ajo_contract::ledger::Ledger;
use ajo_contract::msg::{Coin, Env, InstantiateMsg, MessageInfo, Response};
use ajo_contract::query::query_trust_score;
use ajo_contract::state::DEFAULT_TRUST_SCORE;
use ajo_contract::trust::{
    trust_after_admission, trust_after_contribution, trust_or_default, ADMISSION_BONUS,
    ARREARS_PAYMENT_BONUS, FULL_PAYMENT_BONUS, MISSED_CYCLE_PENALTY, PARTIAL_PAYMENT_BONUS,
};

const DAY: u64 = 86_400;

fn name(s: &str) -> String {
    s.to_string()
}

fn sending(sender: &str, amount: u128) -> MessageInfo {
    MessageInfo { sender: name(sender), funds: vec![Coin { denom: name("uxion"), amount }] }
}

fn partial_plan() -> Ledger {
    let mut ledger = Ledger::new();
    let admin = MessageInfo { sender: name("admin"), funds: vec![] };
    instantiate(&mut ledger, &Env { time_seconds: 0 }, &admin, InstantiateMsg {}).unwrap();
    let creator = MessageInfo { sender: name("alice"), funds: vec![] };
    let created = execute_create_plan(
        &mut ledger,
        &Env { time_seconds: 0 },
        &creator,
        name("Circle"),
        name("A savings circle"),
        5,
        100,
        name("Daily"),
        12,
        0,
        true,
    );
    assert_eq!(created, Ok(Response::PlanCreated { plan_id: 1 }));
    ledger
}

#[test]
fn trust_constants() {
    assert_eq!(DEFAULT_TRUST_SCORE, 50);
    assert_eq!(FULL_PAYMENT_BONUS, 10);
    assert_eq!(PARTIAL_PAYMENT_BONUS, 5);
    assert_eq!(ARREARS_PAYMENT_BONUS, 4);
    assert_eq!(MISSED_CYCLE_PENALTY, 15);
    assert_eq!(ADMISSION_BONUS, 2);
}

#[test]
fn unseen_identity_has_the_default_score() {
    assert_eq!(trust_or_default(None), 50);
    assert_eq!(trust_or_default(Some(0)), 0);
    assert_eq!(trust_or_default(Some(73)), 73);
    let ledger = Ledger::new();
    assert_eq!(query_trust_score(&ledger, &name("nobody")), 50);
}

#[test]
fn full_payment_earns_ten() {
    // amount == contribution, no debt, first payment of the cycle
    assert_eq!(trust_after_contribution(50, 100, 100, false, 0, 0, 0, 0), 60);
    assert_eq!(trust_after_contribution(50, 100, 100, true, 0, 0, 0, 0), 60);
    // in a later cycle, with the cycle before paid
    assert_eq!(trust_after_contribution(50, 100, 100, false, 0, 0, 3, 100), 60);
}

#[test]
fn partial_payment_earns_five_where_partials_are_taken() {
    assert_eq!(trust_after_contribution(50, 40, 100, true, 0, 0, 0, 0), 55);
    assert_eq!(trust_after_contribution(50, 40, 100, true, 30, 0, 0, 0), 55);
    assert_eq!(trust_after_contribution(50, 0, 100, true, 0, 0, 0, 0), 55);
    // the partial case comes before the arrears case
    assert_eq!(trust_after_contribution(50, 99, 100, true, 10, 20, 0, 0), 55);
}

#[test]
fn payment_in_arrears_earns_four() {
    // whole contribution, but with debt: not a clean full payment
    assert_eq!(trust_after_contribution(50, 100, 100, true, 10, 0, 0, 0), 54);
    assert_eq!(trust_after_contribution(50, 110, 100, false, 10, 0, 0, 0), 54);
    // below the contribution in a plan without partial payments, with debt
    assert_eq!(trust_after_contribution(50, 40, 100, false, 10, 70, 0, 0), 54);
}

#[test]
fn payment_of_another_shape_earns_nothing() {
    // whole contribution, no debt, but not the first payment of the cycle
    assert_eq!(trust_after_contribution(50, 100, 100, true, 0, 1, 0, 0), 50);
    // above the contribution, no debt
    assert_eq!(trust_after_contribution(50, 120, 100, true, 0, 0, 0, 0), 50);
    // below the contribution, no partial payments, no debt
    assert_eq!(trust_after_contribution(50, 40, 100, false, 0, 60, 0, 0), 50);
}

#[test]
fn missed_cycle_costs_fifteen_beside_the_bonus() {
    assert_eq!(trust_after_contribution(50, 30, 100, true, 100, 0, 1, 0), 40);
    assert_eq!(trust_after_contribution(50, 200, 100, false, 100, 0, 1, 0), 39);
    assert_eq!(trust_after_contribution(50, 120, 100, true, 0, 0, 2, 0), 35);
    // something was paid in the cycle before: no penalty
    assert_eq!(trust_after_contribution(50, 30, 100, true, 99, 0, 1, 1), 55);
    // cycle zero has no cycle before it
    assert_eq!(trust_after_contribution(50, 30, 100, true, 0, 0, 0, 0), 55);
}

#[test]
fn penalty_takes_a_score_of_fifteen_or_more_down_by_fifteen() {
    assert_eq!(trust_after_contribution(15, 120, 100, true, 0, 0, 1, 0), 0);
    assert_eq!(trust_after_contribution(16, 120, 100, true, 0, 0, 1, 0), 1);
    assert_eq!(trust_after_contribution(10, 30, 100, true, 100, 0, 1, 0), 0);
    assert_eq!(trust_after_contribution(11, 30, 100, true, 100, 0, 1, 0), 1);
}

#[test]
fn penalty_stops_at_zero_for_a_score_below_fifteen() {
    assert_eq!(trust_after_contribution(0, 120, 100, true, 0, 0, 1, 0), 0);
    assert_eq!(trust_after_contribution(14, 120, 100, true, 0, 0, 1, 0), 0);
    // the bonus is added before the penalty is taken off
    assert_eq!(trust_after_contribution(0, 30, 100, true, 100, 0, 1, 0), 0);
    assert_eq!(trust_after_contribution(9, 30, 100, true, 100, 0, 1, 0), 0);
    assert_eq!(trust_after_contribution(3, 200, 100, false, 100, 0, 1, 0), 0);
}

#[test]
fn bonus_stops_at_the_largest_score() {
    assert_eq!(trust_after_contribution(u64::MAX, 100, 100, false, 0, 0, 0, 0), u64::MAX);
    assert_eq!(trust_after_contribution(u64::MAX - 3, 100, 100, false, 0, 0, 0, 0), u64::MAX);
    assert_eq!(trust_after_contribution(u64::MAX - 10, 100, 100, false, 0, 0, 0, 0), u64::MAX);
    assert_eq!(trust_after_contribution(u64::MAX - 11, 100, 100, false, 0, 0, 0, 0), u64::MAX - 1);
    assert_eq!(trust_after_contribution(u64::MAX, 30, 100, true, 100, 0, 1, 0), u64::MAX - 15);
    assert_eq!(trust_after_admission(u64::MAX), u64::MAX);
    assert_eq!(trust_after_admission(u64::MAX - 1), u64::MAX);
}

#[test]
fn admission_earns_two() {
    assert_eq!(trust_after_admission(50), 52);
    assert_eq!(trust_after_admission(0), 2);
}

#[test]
fn low_score_payer_with_a_missed_cycle_can_still_pay() {
    let mut ledger = partial_plan();
    ledger.save_trust_score(&name("alice"), 3);
    let answer =
        execute_contribute(&mut ledger, &Env { time_seconds: DAY }, &sending("alice", 30), 1, 30);
    assert!(answer.is_ok());
    assert_eq!(ledger.trust_score(&name("alice")), Some(0));
    assert_eq!(query_trust_score(&ledger, &name("alice")), 0);
}

#[test]
fn score_is_recorded_even_when_it_does_not_move() {
    let mut ledger = partial_plan();
    // 120 of a target of 100 is refused; 100 after 1 is no clean full payment
    execute_contribute(&mut ledger, &Env { time_seconds: 1 }, &sending("alice", 1), 1, 1).unwrap();
    assert_eq!(ledger.trust_score(&name("alice")), Some(55));
    let mut plan = ledger.plan(1).unwrap().clone();
    plan.allow_partial = false;
    plan.participants.push(name("bob"));
    ledger.save_plan(plan);
    execute_contribute(&mut ledger, &Env { time_seconds: 2 }, &sending("alice", 99), 1, 99).unwrap();
    assert_eq!(ledger.trust_score(&name("alice")), Some(55));
}
