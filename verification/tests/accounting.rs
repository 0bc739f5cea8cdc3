use ajo_contract::accounting::{
    amount_or_zero, check_contributor, current_cycle_for_participant, cycle_of, cycles_between,
    participant_status, previous_cycle, settle, Settlement,
};
use ajo_contract::contract::{execute_contribute, execute_create_plan, instantiate};
use ajo_contract::error::ContractError;
use ajo_contract::ledger::Ledger;
use ajo_contract::msg::{
    funds_sent, settlement_denom, Coin, Env, InstantiateMsg, MessageInfo,
    ParticipantCycleStatusResponse, Payout, Response,
};
use ajo_contract::state::{cycles_per_month, Frequency, Plan};

const DAY: u64 = 86_400;

fn text(s: &str) -> String {
    s.to_string()
}

fn invalid(reason: &str) -> ContractError {
    ContractError::InvalidInput(reason.to_string())
}

fn plan_of(contribution_amount: u128, allow_partial: bool, frequency: Frequency) -> Plan {
    Plan {
        id: 1,
        name: text("Circle"),
        description: text("A savings circle"),
        total_participants: 5,
        contribution_amount,
        frequency,
        duration_months: 12,
        trust_score_required: 0,
        allow_partial,
        participants: vec![text("alice"), text("bob")],
        current_cycle: 0,
        is_active: true,
        payout_index: 0,
        balance: 0,
        created_by: text("alice"),
    }
}

fn uxion(sender: &str, amount: u128) -> MessageInfo {
    MessageInfo { sender: text(sender), funds: vec![Coin { denom: text("uxion"), amount }] }
}

fn ledger_with_plan(contribution_amount: u128, frequency: &str, allow_partial: bool) -> Ledger {
    let mut ledger = Ledger::new();
    let admin = MessageInfo { sender: text("admin"), funds: vec![] };
    instantiate(&mut ledger, &Env { time_seconds: 0 }, &admin, InstantiateMsg {}).unwrap();
    let creator = MessageInfo { sender: text("alice"), funds: vec![] };
    let created = execute_create_plan(
        &mut ledger,
        &Env { time_seconds: 0 },
        &creator,
        text("Circle"),
        text("A savings circle"),
        5,
        contribution_amount,
        text(frequency),
        12,
        0,
        allow_partial,
    );
    assert_eq!(created, Ok(Response::PlanCreated { plan_id: 1 }));
    ledger
}

#[test]
fn cycles_between_counts_whole_periods() {
    assert_eq!(cycles_between(0, 0, "Daily"), 0);
    assert_eq!(cycles_between(100, 100, "Daily"), 0);
    assert_eq!(cycles_between(100, 50, "Daily"), 0);
    assert_eq!(cycles_between(0, DAY - 1, "Daily"), 0);
    assert_eq!(cycles_between(0, DAY, "Daily"), 1);
    assert_eq!(cycles_between(10, 10 + 3 * DAY + 5, "Daily"), 3);
    assert_eq!(cycles_between(0, 7 * DAY - 1, "Weekly"), 0);
    assert_eq!(cycles_between(0, 7 * DAY, "Weekly"), 1);
    assert_eq!(cycles_between(0, 15 * DAY, "Weekly"), 2);
    assert_eq!(cycles_between(0, 30 * DAY - 1, "Monthly"), 0);
    assert_eq!(cycles_between(0, 30 * DAY, "Monthly"), 1);
    assert_eq!(cycles_between(5, 5 + 95 * DAY, "Monthly"), 3);
    assert_eq!(cycles_between(0, u64::MAX, "Daily"), u64::MAX / DAY);
}

#[test]
fn cycles_between_takes_small_initials_and_no_other_name() {
    assert_eq!(cycles_between(0, 10 * DAY, "daily"), 10);
    assert_eq!(cycles_between(0, 14 * DAY, "weekly"), 2);
    assert_eq!(cycles_between(0, 60 * DAY, "monthly"), 2);
    assert_eq!(cycles_between(0, 10 * DAY, "DAILY"), 0);
    assert_eq!(cycles_between(0, 10 * DAY, "Yearly"), 0);
    assert_eq!(cycles_between(0, 10 * DAY, ""), 0);
}

#[test]
fn current_cycle_counts_from_the_personal_start() {
    let env = Env { time_seconds: 1_000 + 2 * DAY };
    assert_eq!(current_cycle_for_participant(1_000, &env, "Daily"), 2);
    assert_eq!(current_cycle_for_participant(1_000 + DAY, &env, "Daily"), 1);
    assert_eq!(current_cycle_for_participant(5_000_000, &env, "Daily"), 0);
    let plan = plan_of(100, false, Frequency::Weekly);
    assert_eq!(cycle_of(&plan, Some(0), &Env { time_seconds: 21 * DAY }), 3);
    assert_eq!(cycle_of(&plan, None, &Env { time_seconds: 21 * DAY }), 3);
    assert_eq!(cycle_of(&plan, Some(20 * DAY), &Env { time_seconds: 21 * DAY }), 0);
}

#[test]
fn cycles_per_month_by_cadence() {
    assert_eq!(cycles_per_month(&Frequency::Daily), 30);
    assert_eq!(cycles_per_month(&Frequency::Weekly), 4);
    assert_eq!(cycles_per_month(&Frequency::Monthly), 1);
}

#[test]
fn period_seconds_by_cadence() {
    assert_eq!(Frequency::Daily.period_seconds(), 86_400);
    assert_eq!(Frequency::Weekly.period_seconds(), 604_800);
    assert_eq!(Frequency::Monthly.period_seconds(), 2_592_000);
}

#[test]
fn previous_cycle_and_absent_entries() {
    assert_eq!(previous_cycle(0), None);
    assert_eq!(previous_cycle(1), Some(0));
    assert_eq!(previous_cycle(u64::MAX), Some(u64::MAX - 1));
    assert_eq!(amount_or_zero(None), 0);
    assert_eq!(amount_or_zero(Some(17)), 17);
}

#[test]
fn funds_sent_reads_the_first_coin_of_the_settlement_unit() {
    assert_eq!(settlement_denom(), "uxion");
    assert_eq!(funds_sent(&vec![]), 0);
    let other = Coin { denom: text("uatom"), amount: 900 };
    let first = Coin { denom: text("uxion"), amount: 40 };
    let second = Coin { denom: text("uxion"), amount: 70 };
    assert_eq!(funds_sent(&vec![other.clone()]), 0);
    assert_eq!(funds_sent(&vec![first.clone()]), 40);
    assert_eq!(funds_sent(&vec![other.clone(), first.clone(), second.clone()]), 40);
    assert_eq!(funds_sent(&vec![second, other, first]), 70);
}

#[test]
fn settle_full_payment_in_cycle_zero() {
    let plan = plan_of(100, false, Frequency::Daily);
    assert_eq!(
        settle(&plan, 0, 0, 0, 0, 50, 100),
        Ok(Settlement {
            cycle: 0,
            debt_before: 0,
            contributed_total_this_cycle: 100,
            debt_after: 0,
            trust_after: 60,
        })
    );
}

#[test]
fn settle_requires_the_exact_amount_without_partial_payments() {
    let plan = plan_of(100, false, Frequency::Daily);
    assert_eq!(settle(&plan, 0, 0, 0, 0, 50, 99), Err(invalid("Must contribute exact amount")));
    assert_eq!(settle(&plan, 0, 0, 0, 0, 50, 101), Err(invalid("Must contribute exact amount")));
    assert_eq!(settle(&plan, 0, 0, 0, 0, 50, 0), Err(invalid("Must contribute exact amount")));
    // With 60 of debt the exact amount is 160.
    assert_eq!(settle(&plan, 0, 0, 0, 60, 50, 100), Err(invalid("Must contribute exact amount")));
    assert_eq!(
        settle(&plan, 0, 0, 0, 60, 50, 160),
        Ok(Settlement {
            cycle: 0,
            debt_before: 60,
            contributed_total_this_cycle: 160,
            debt_after: 0,
            trust_after: 54,
        })
    );
}

#[test]
fn settle_refuses_more_than_what_is_due() {
    let plan = plan_of(100, true, Frequency::Daily);
    assert_eq!(
        settle(&plan, 0, 0, 0, 0, 50, 101),
        Err(invalid("Contribution exceeds remaining for this cycle"))
    );
    assert_eq!(
        settle(&plan, 0, 40, 0, 0, 50, 61),
        Err(invalid("Contribution exceeds remaining for this cycle"))
    );
    assert_eq!(
        settle(&plan, 0, 40, 0, 0, 50, 60),
        Ok(Settlement {
            cycle: 0,
            debt_before: 0,
            contributed_total_this_cycle: 100,
            debt_after: 0,
            trust_after: 55,
        })
    );
}

#[test]
fn settle_refuses_a_cycle_that_is_paid_in_full() {
    let plan = plan_of(100, true, Frequency::Daily);
    assert_eq!(
        settle(&plan, 0, 100, 0, 0, 50, 1),
        Err(invalid("Already fully contributed this cycle"))
    );
    assert_eq!(
        settle(&plan, 0, 100, 0, 0, 50, 0),
        Err(invalid("Already fully contributed this cycle"))
    );
    assert_eq!(
        settle(&plan, 3, 150, 100, 50, 50, 10),
        Err(invalid("Already fully contributed this cycle"))
    );
}

#[test]
fn settle_rolls_the_unpaid_rest_into_debt_on_the_first_payment_of_a_cycle() {
    let plan = plan_of(100, true, Frequency::Daily);
    // 70 were paid in the cycle before: 30 are carried over.
    assert_eq!(
        settle(&plan, 2, 0, 70, 0, 50, 10),
        Ok(Settlement {
            cycle: 2,
            debt_before: 30,
            contributed_total_this_cycle: 10,
            debt_after: 30,
            trust_after: 55,
        })
    );
    // Not the first payment of the cycle: nothing is carried over.
    assert_eq!(
        settle(&plan, 2, 10, 70, 30, 50, 10),
        Ok(Settlement {
            cycle: 2,
            debt_before: 30,
            contributed_total_this_cycle: 20,
            debt_after: 30,
            trust_after: 55,
        })
    );
    // The cycle before was paid in full, or more: nothing is carried over.
    assert_eq!(settle(&plan, 2, 0, 100, 0, 50, 10).unwrap().debt_before, 0);
    assert_eq!(settle(&plan, 2, 0, 130, 5, 50, 10).unwrap().debt_before, 5);
    // Cycle zero has no cycle before it.
    assert_eq!(settle(&plan, 0, 0, 0, 0, 50, 10).unwrap().debt_before, 0);
}

#[test]
fn settle_pays_debt_off_with_what_exceeds_the_contribution() {
    let plan = plan_of(100, true, Frequency::Daily);
    // Debt 80, already 90: 30 more make 120, of which 20 pay debt off.
    assert_eq!(
        settle(&plan, 1, 90, 100, 80, 50, 30),
        Ok(Settlement {
            cycle: 1,
            debt_before: 80,
            contributed_total_this_cycle: 120,
            debt_after: 60,
            trust_after: 55,
        })
    );
    // Paying all that is due clears the debt.
    assert_eq!(
        settle(&plan, 1, 0, 100, 80, 50, 180),
        Ok(Settlement {
            cycle: 1,
            debt_before: 80,
            contributed_total_this_cycle: 180,
            debt_after: 0,
            trust_after: 54,
        })
    );
    // A total up to the contribution pays no debt off.
    assert_eq!(settle(&plan, 1, 0, 100, 80, 50, 100).unwrap().debt_after, 80);
}

#[test]
fn settle_fails_when_the_debt_does_not_fit() {
    let plan = plan_of(100, true, Frequency::Daily);
    assert_eq!(
        settle(&plan, 1, 0, 0, u128::MAX - 50, 50, 10),
        Err(invalid("Arithmetic overflow"))
    );
    assert_eq!(
        settle(&plan, 0, 0, 0, u128::MAX - 50, 50, 10),
        Err(invalid("Arithmetic overflow"))
    );
    assert_eq!(settle(&plan, 0, 0, 0, u128::MAX - 100, 50, 10).unwrap().debt_after, u128::MAX - 100);
}

#[test]
fn check_contributor_names_each_reason() {
    let mut plan = plan_of(100, false, Frequency::Daily);
    assert_eq!(check_contributor(&plan, &text("alice"), 100, 100, Some(7)), Ok(7));
    assert_eq!(check_contributor(&plan, &text("alice"), 150, 100, Some(7)), Ok(7));
    assert_eq!(
        check_contributor(&plan, &text("carol"), 100, 100, Some(7)),
        Err(ContractError::NotParticipant {})
    );
    assert_eq!(
        check_contributor(&plan, &text("alice"), 99, 100, Some(7)),
        Err(invalid("Insufficient funds sent"))
    );
    assert_eq!(
        check_contributor(&plan, &text("alice"), 100, 100, None),
        Err(invalid("participant not started"))
    );
    plan.is_active = false;
    assert_eq!(
        check_contributor(&plan, &text("carol"), 0, 100, None),
        Err(ContractError::PlanNotActive {})
    );
}

#[test]
fn participant_status_reports_what_is_left_of_the_contribution() {
    let plan = plan_of(100, true, Frequency::Daily);
    assert_eq!(
        participant_status(&plan, 4, Some(40), Some(25)),
        ParticipantCycleStatusResponse {
            cycle: 4,
            required: 100,
            contributed_this_cycle: 40,
            remaining_this_cycle: 60,
            fully_contributed: false,
            debt: 25,
        }
    );
    assert_eq!(
        participant_status(&plan, 0, None, None),
        ParticipantCycleStatusResponse {
            cycle: 0,
            required: 100,
            contributed_this_cycle: 0,
            remaining_this_cycle: 100,
            fully_contributed: false,
            debt: 0,
        }
    );
    let full = participant_status(&plan, 1, Some(100), None);
    assert!(full.fully_contributed);
    assert_eq!(full.remaining_this_cycle, 0);
    let over = participant_status(&plan, 1, Some(130), Some(3));
    assert!(over.fully_contributed);
    assert_eq!(over.remaining_this_cycle, 0);
}

#[test]
fn contribute_is_refused_for_a_missing_or_inactive_plan() {
    let mut ledger = ledger_with_plan(100, "Daily", false);
    assert_eq!(
        execute_contribute(&mut ledger, &Env { time_seconds: 1 }, &uxion("alice", 100), 2, 100),
        Err(ContractError::PlanNotFound(2))
    );
    let mut plan = ledger.plan(1).unwrap().clone();
    plan.is_active = false;
    ledger.save_plan(plan);
    assert_eq!(
        execute_contribute(&mut ledger, &Env { time_seconds: 1 }, &uxion("alice", 100), 1, 100),
        Err(ContractError::PlanNotActive {})
    );
}

#[test]
fn contribute_is_refused_for_a_stranger_and_for_short_funds() {
    let mut ledger = ledger_with_plan(100, "Daily", false);
    assert_eq!(
        execute_contribute(&mut ledger, &Env { time_seconds: 1 }, &uxion("mallory", 100), 1, 100),
        Err(ContractError::NotParticipant {})
    );
    assert_eq!(
        execute_contribute(&mut ledger, &Env { time_seconds: 1 }, &uxion("alice", 99), 1, 100),
        Err(invalid("Insufficient funds sent"))
    );
    let wrong_unit =
        MessageInfo { sender: text("alice"), funds: vec![Coin { denom: text("uatom"), amount: 100 }] };
    assert_eq!(
        execute_contribute(&mut ledger, &Env { time_seconds: 1 }, &wrong_unit, 1, 100),
        Err(invalid("Insufficient funds sent"))
    );
    // Nothing was recorded by the refused requests.
    assert_eq!(ledger.contribution(1, &text("alice"), 0), None);
    assert_eq!(ledger.debt(1, &text("alice")), None);
    assert_eq!(ledger.trust_score(&text("alice")), None);
    assert_eq!(ledger.plan(1).unwrap().balance, 0);
}

#[test]
fn contribute_is_refused_for_a_member_without_start_time() {
    let mut ledger = ledger_with_plan(100, "Daily", false);
    let mut plan = ledger.plan(1).unwrap().clone();
    plan.participants.push(text("bob"));
    ledger.save_plan(plan);
    assert_eq!(
        execute_contribute(&mut ledger, &Env { time_seconds: 1 }, &uxion("bob", 100), 1, 100),
        Err(invalid("participant not started"))
    );
}

#[test]
fn contribute_more_than_declared_funds_is_fine() {
    let mut ledger = ledger_with_plan(100, "Daily", true);
    let answer =
        execute_contribute(&mut ledger, &Env { time_seconds: 1 }, &uxion("alice", 500), 1, 60);
    assert_eq!(
        answer,
        Ok(Response::Contributed {
            cycle: 0,
            contributed_total_this_cycle: 60,
            debt_after: 0,
            auto_payout: None,
        })
    );
    assert_eq!(ledger.plan(1).unwrap().balance, 60);
}

#[test]
fn contribution_total_never_exceeds_contribution_plus_debt() {
    let mut ledger = ledger_with_plan(100, "Daily", true);
    // Cycle 0 is missed; the first payment of cycle 1 makes the debt 100.
    let env = Env { time_seconds: DAY };
    // (amount, debt before the payment, total after it, debt after it)
    for (amount, debt_before, total, debt_after) in
        [(50u128, 100u128, 50u128, 100u128), (100, 100, 150, 50)]
    {
        let answer = execute_contribute(&mut ledger, &env, &uxion("alice", amount), 1, amount);
        assert_eq!(
            answer,
            Ok(Response::Contributed {
                cycle: 1,
                contributed_total_this_cycle: total,
                debt_after,
                auto_payout: if total == 150 {
                    Some(Payout { recipient: text("alice"), amount: 100 })
                } else {
                    None
                },
            })
        );
        assert!(total <= 100 + debt_before);
    }
    // What exceeded the contribution paid debt off, so the target is now
    // 100 + 50, and the 150 paid meet it.
    assert_eq!(
        execute_contribute(&mut ledger, &env, &uxion("alice", 1), 1, 1),
        Err(invalid("Already fully contributed this cycle"))
    );
    assert_eq!(ledger.contribution(1, &text("alice"), 1), Some(150));
    assert_eq!(ledger.debt(1, &text("alice")), Some(50));
}

#[test]
fn debt_is_carried_over_once_per_cycle() {
    let mut ledger = ledger_with_plan(100, "Daily", true);
    let env = Env { time_seconds: 2 * DAY + 10 };
    // Cycle 1 was missed (and cycle 0 too): the first payment of cycle 2
    // carries 100 over.
    execute_contribute(&mut ledger, &env, &uxion("alice", 10), 1, 10).unwrap();
    assert_eq!(ledger.debt(1, &text("alice")), Some(100));
    // A second payment in the same cycle carries nothing over.
    execute_contribute(&mut ledger, &env, &uxion("alice", 10), 1, 10).unwrap();
    assert_eq!(ledger.debt(1, &text("alice")), Some(100));
    // Paying above the contribution pays debt off: 20 + 130 = 150, 50 above.
    execute_contribute(&mut ledger, &env, &uxion("alice", 130), 1, 130).unwrap();
    assert_eq!(ledger.debt(1, &text("alice")), Some(50));
    // In cycle 3 nothing is left over of cycle 2, which was paid above 100.
    let later = Env { time_seconds: 3 * DAY + 10 };
    execute_contribute(&mut ledger, &later, &uxion("alice", 20), 1, 20).unwrap();
    assert_eq!(ledger.debt(1, &text("alice")), Some(50));
    assert_eq!(ledger.contribution(1, &text("alice"), 3), Some(20));
    assert_eq!(ledger.contribution(1, &text("alice"), 2), Some(150));
}

#[test]
fn a_payment_of_nothing_carries_debt_over_again() {
    // A payment of zero leaves the cycle untouched, so the next payment is
    // again the first of the cycle.
    let mut ledger = ledger_with_plan(100, "Daily", true);
    let env = Env { time_seconds: DAY };
    execute_contribute(&mut ledger, &env, &uxion("alice", 0), 1, 0).unwrap();
    assert_eq!(ledger.debt(1, &text("alice")), Some(100));
    execute_contribute(&mut ledger, &env, &uxion("alice", 0), 1, 0).unwrap();
    assert_eq!(ledger.debt(1, &text("alice")), Some(200));
}

#[test]
fn contribute_fails_when_the_pot_does_not_fit() {
    let mut ledger = ledger_with_plan(100, "Daily", false);
    let mut plan = ledger.plan(1).unwrap().clone();
    plan.participants.push(text("bob"));
    plan.balance = u128::MAX - 50;
    plan.is_active = true;
    ledger.save_plan(plan);
    let before = ledger.plan(1).unwrap().clone();
    assert_eq!(
        execute_contribute(&mut ledger, &Env { time_seconds: 1 }, &uxion("alice", 100), 1, 100),
        Err(invalid("Arithmetic overflow"))
    );
    assert_eq!(ledger.plan(1), Some(&before));
    assert_eq!(ledger.contribution(1, &text("alice"), 0), None);
    assert_eq!(ledger.trust_score(&text("alice")), None);
}

#[test]
fn payout_is_reported_with_the_contribution_that_fills_the_pot() {
    let mut ledger = ledger_with_plan(100, "Daily", false);
    let answer =
        execute_contribute(&mut ledger, &Env { time_seconds: 1 }, &uxion("alice", 100), 1, 100);
    assert_eq!(
        answer,
        Ok(Response::Contributed {
            cycle: 0,
            contributed_total_this_cycle: 100,
            debt_after: 0,
            auto_payout: Some(Payout { recipient: text("alice"), amount: 100 }),
        })
    );
    let plan = ledger.plan(1).unwrap();
    assert_eq!(plan.balance, 0);
    assert_eq!(plan.current_cycle, 1);
    assert_eq!(plan.payout_index, 0);
    // The entry of the cycle stays: the payer's cycles go on counting.
    assert_eq!(ledger.contribution(1, &text("alice"), 0), Some(100));
}
