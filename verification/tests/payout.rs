use ajo_contract::contract::{execute_contribute, execute_create_plan};
use ajo_contract::error::ContractError;
use ajo_contract::ledger::Ledger;
use ajo_contract::msg::{Coin, Env, MessageInfo, Payout, Response};
use ajo_contract::payout::{credit_and_pay, try_auto_payout};
use ajo_contract::state::{Frequency, Plan};

fn p(name: &str) -> String {
    name.to_string()
}

fn overflow() -> ContractError {
    ContractError::InvalidInput(p("Arithmetic overflow"))
}

fn circle(members: &[&str], frequency: Frequency, duration_months: u32) -> Plan {
    Plan {
        id: 1,
        name: p("Circle"),
        description: p("A savings circle"),
        total_participants: 10,
        contribution_amount: 100,
        frequency,
        duration_months,
        trust_score_required: 0,
        allow_partial: true,
        participants: members.iter().map(|m| m.to_string()).collect(),
        current_cycle: 0,
        is_active: true,
        payout_index: 0,
        balance: 0,
        created_by: p(members[0]),
    }
}

#[test]
fn no_payout_while_the_pot_is_short() {
    let mut plan = circle(&["alice", "bob", "carol"], Frequency::Monthly, 12);
    plan.balance = 299;
    let before = plan.clone();
    assert_eq!(try_auto_payout(&mut plan), Ok(None));
    assert_eq!(plan, before);
}

#[test]
fn no_payout_for_an_inactive_plan() {
    let mut plan = circle(&["alice", "bob"], Frequency::Monthly, 12);
    plan.balance = 1_000;
    plan.is_active = false;
    let before = plan.clone();
    assert_eq!(try_auto_payout(&mut plan), Ok(None));
    assert_eq!(plan, before);
}

#[test]
fn payout_pays_one_round_and_keeps_the_rest() {
    let mut plan = circle(&["alice", "bob", "carol"], Frequency::Monthly, 12);
    plan.balance = 350;
    assert_eq!(
        try_auto_payout(&mut plan),
        Ok(Some(Payout { recipient: p("alice"), amount: 300 }))
    );
    assert_eq!(plan.balance, 50);
    assert_eq!(plan.payout_index, 1);
    assert_eq!(plan.current_cycle, 1);
    assert!(plan.is_active);
    // a pot of two rounds is paid one round at a time
    plan.balance = 600;
    assert_eq!(
        try_auto_payout(&mut plan),
        Ok(Some(Payout { recipient: p("bob"), amount: 300 }))
    );
    assert_eq!(plan.balance, 300);
    assert_eq!(
        try_auto_payout(&mut plan),
        Ok(Some(Payout { recipient: p("carol"), amount: 300 }))
    );
    assert_eq!(plan.balance, 0);
    assert_eq!(plan.payout_index, 0);
    assert_eq!(plan.current_cycle, 3);
}

#[test]
fn payout_cursor_goes_round() {
    let mut plan = circle(&["alice", "bob", "carol"], Frequency::Daily, 36);
    let turns = ["alice", "bob", "carol", "alice", "bob", "carol", "alice"];
    for (round, recipient) in turns.iter().enumerate() {
        assert_eq!(plan.payout_index as usize, round % 3);
        assert_eq!(
            credit_and_pay(&mut plan, 300),
            Ok(Some(Payout { recipient: p(recipient), amount: 300 }))
        );
        assert_eq!(plan.current_cycle as usize, round + 1);
        assert_eq!(plan.balance, 0);
    }
}

#[test]
fn plan_concludes_after_its_rounds() {
    // two months of a weekly plan are eight rounds
    let mut plan = circle(&["alice", "bob"], Frequency::Weekly, 2);
    for round in 1..=8u32 {
        assert!(plan.is_active);
        let paid = credit_and_pay(&mut plan, 200).unwrap();
        assert!(paid.is_some());
        assert_eq!(plan.current_cycle, round);
    }
    assert!(!plan.is_active);
    // a concluded plan pays nothing out
    plan.balance = 200;
    assert_eq!(try_auto_payout(&mut plan), Ok(None));
    assert_eq!(plan.balance, 200);
}

#[test]
fn rounds_of_a_plan_by_cadence() {
    for (frequency, months, rounds) in [
        (Frequency::Monthly, 1u32, 1u32),
        (Frequency::Monthly, 3, 3),
        (Frequency::Weekly, 1, 4),
        (Frequency::Daily, 1, 30),
        (Frequency::Daily, 2, 60),
    ] {
        let mut plan = circle(&["alice"], frequency, months);
        let mut paid = 0;
        while plan.is_active {
            assert!(credit_and_pay(&mut plan, 100).unwrap().is_some());
            paid += 1;
        }
        assert_eq!(paid, rounds);
        assert_eq!(plan.current_cycle, rounds);
    }
}

#[test]
fn credit_below_a_round_only_fills_the_pot() {
    let mut plan = circle(&["alice", "bob"], Frequency::Monthly, 12);
    assert_eq!(credit_and_pay(&mut plan, 150), Ok(None));
    assert_eq!(plan.balance, 150);
    assert_eq!(plan.current_cycle, 0);
    assert_eq!(
        credit_and_pay(&mut plan, 50),
        Ok(Some(Payout { recipient: p("alice"), amount: 200 }))
    );
    assert_eq!(plan.balance, 0);
}

#[test]
fn credit_fails_when_the_pot_does_not_fit() {
    let mut plan = circle(&["alice", "bob"], Frequency::Monthly, 12);
    plan.is_active = false;
    plan.balance = u128::MAX - 1;
    let before = plan.clone();
    assert_eq!(credit_and_pay(&mut plan, 2), Err(overflow()));
    assert_eq!(plan, before);
    assert_eq!(credit_and_pay(&mut plan, 1), Ok(None));
    assert_eq!(plan.balance, u128::MAX);
}

#[test]
fn payout_fails_when_the_round_does_not_fit() {
    let mut plan = circle(&["alice", "bob"], Frequency::Monthly, 12);
    plan.contribution_amount = u128::MAX;
    plan.balance = u128::MAX;
    let before = plan.clone();
    assert_eq!(try_auto_payout(&mut plan), Err(overflow()));
    assert_eq!(plan, before);
}

#[test]
fn payout_fails_when_the_round_counter_is_used_up() {
    let mut plan = circle(&["alice", "bob"], Frequency::Monthly, 12);
    plan.current_cycle = u32::MAX;
    plan.balance = 200;
    let before = plan.clone();
    assert_eq!(try_auto_payout(&mut plan), Err(overflow()));
    assert_eq!(plan, before);
    // and so does the contribution that would trigger it
    let mut plan = circle(&["alice", "bob"], Frequency::Monthly, 12);
    plan.current_cycle = u32::MAX;
    plan.balance = 100;
    let before = plan.clone();
    assert_eq!(credit_and_pay(&mut plan, 100), Err(overflow()));
    assert_eq!(plan, before);
}

#[test]
fn reactivated_plan_concludes_again_with_its_next_payout() {
    let mut plan = circle(&["alice", "bob"], Frequency::Monthly, 1);
    assert!(credit_and_pay(&mut plan, 200).unwrap().is_some());
    assert!(!plan.is_active);
    plan.is_active = true;
    assert_eq!(
        credit_and_pay(&mut plan, 200),
        Ok(Some(Payout { recipient: p("bob"), amount: 200 }))
    );
    assert_eq!(plan.current_cycle, 2);
    assert!(!plan.is_active);
}

#[test]
fn contributions_of_all_members_trigger_the_payouts_in_turn() {
    let mut ledger = Ledger::new();
    let creator = MessageInfo { sender: p("alice"), funds: vec![] };
    execute_create_plan(
        &mut ledger,
        &Env { time_seconds: 0 },
        &creator,
        p("Circle"),
        p("A savings circle"),
        3,
        100,
        p("Daily"),
        1,
        0,
        false,
    )
    .unwrap();
    let mut plan = ledger.plan(1).unwrap().clone();
    plan.participants = vec![p("alice"), p("bob"), p("carol")];
    ledger.save_plan(plan);
    for member in ["bob", "carol"] {
        ledger.save_participant_start(1, &p(member), 0);
    }
    let day = 86_400u64;
    let turns = ["alice", "bob", "carol", "alice"];
    for (cycle, recipient) in turns.iter().enumerate() {
        let env = Env { time_seconds: cycle as u64 * day + 1 };
        for (i, member) in ["alice", "bob", "carol"].iter().enumerate() {
            let info = MessageInfo {
                sender: p(member),
                funds: vec![Coin { denom: p("uxion"), amount: 100 }],
            };
            let answer = execute_contribute(&mut ledger, &env, &info, 1, 100);
            let expected_payout = if i == 2 {
                Some(Payout { recipient: p(recipient), amount: 300 })
            } else {
                None
            };
            assert_eq!(
                answer,
                Ok(Response::Contributed {
                    cycle: cycle as u64,
                    contributed_total_this_cycle: 100,
                    debt_after: 0,
                    auto_payout: expected_payout,
                })
            );
        }
        assert_eq!(ledger.plan(1).unwrap().current_cycle as usize, cycle + 1);
        assert_eq!(ledger.plan(1).unwrap().balance, 0);
    }
    assert_eq!(ledger.plan(1).unwrap().payout_index, 1);
    assert_eq!(ledger.trust_score(&p("alice")), Some(90));
}
