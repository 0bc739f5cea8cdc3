//! Personal cycles, the contribution due in each, and the debt carried over.
//!
//! Each participant counts cycles from a start time of their own.  The first
//! payment of a new cycle moves what was left unpaid of the cycle before into
//! the payer's debt; a payment above the plan's contribution pays debt off.
use vstd::prelude::*;
use crate::error::{
    reason_excess, reason_funds, reason_inexact, reason_not_started, reason_overflow,
    reason_satisfied, ContractError, ErrorView,
};
use crate::msg::{Env, ParticipantCycleStatusResponse};
use crate::state::{same_text, Frequency, Plan, PlanView, SECONDS_PER_DAY};
use crate::trust::{spec_trust_after_contribution, trust_after_contribution};

verus! {

/// The cycle length, in seconds, that a cadence name stands for.  The three
/// names are taken with a capital or a small initial.
pub open spec fn period_named(name: Seq<char>) -> Option<u64> {
    if name == "Daily"@ || name == "daily"@ {
        Some(86_400u64)
    } else if name == "Weekly"@ || name == "weekly"@ {
        Some(604_800u64)
    } else if name == "Monthly"@ || name == "monthly"@ {
        Some(2_592_000u64)
    } else {
        None
    }
}

/// Number of whole cycles of the named cadence between `start` and `now`:
/// zero when `now` is not after `start` or the name is no cadence.
pub open spec fn spec_cycles_between(start: u64, now: u64, frequency: Seq<char>) -> u64 {
    if now <= start {
        0
    } else {
        match period_named(frequency) {
            Some(period) => ((now - start) / (period as int)) as u64,
            None => 0,
        }
    }
}

/// The personal cycle at time `now` of a participant who started at `start`.
pub open spec fn personal_cycle(start: u64, now: u64, frequency: Frequency) -> u64 {
    if now <= start {
        0
    } else {
        ((now - start) / (frequency.spec_period_seconds() as int)) as u64
    }
}

/// Counting by a cadence's name gives that cadence's personal cycle.
pub proof fn lemma_cycles_by_name(start: u64, now: u64, frequency: Frequency)
    ensures
        spec_cycles_between(start, now, frequency.spec_name()) == personal_cycle(
            start,
            now,
            frequency,
        ),
{
    reveal_strlit("Daily");
    reveal_strlit("daily");
    reveal_strlit("Weekly");
    reveal_strlit("weekly");
    reveal_strlit("Monthly");
    reveal_strlit("monthly");
    assert("Weekly"@[0] != "weekly"@[0]);
    assert("Monthly"@[0] != "monthly"@[0]);
    assert("Daily"@.len() != "Weekly"@.len());
    assert("Daily"@.len() != "Monthly"@.len());
    assert("Weekly"@.len() != "Monthly"@.len());
}

/// Number of whole cycles of the named cadence between `start` and `now`.
pub fn cycles_between(start: u64, now: u64, frequency: &str) -> (cycles: u64)
    ensures
        cycles == spec_cycles_between(start, now, frequency@),
{
    if now <= start {
        return 0;
    }
    let seconds: u64 = now - start;
    if same_text(frequency, "Daily") || same_text(frequency, "daily") {
        seconds / SECONDS_PER_DAY
    } else if same_text(frequency, "Weekly") || same_text(frequency, "weekly") {
        seconds / (7 * SECONDS_PER_DAY)
    } else if same_text(frequency, "Monthly") || same_text(frequency, "monthly") {
        seconds / (30 * SECONDS_PER_DAY)
    } else {
        0
    }
}

/// The personal cycle, at the moment of the request, of a participant who
/// started at `start_time` in a plan of the named cadence.
pub fn current_cycle_for_participant(start_time: u64, env: &Env, frequency: &str) -> (cycle: u64)
    ensures
        cycle == spec_cycles_between(start_time, env.time_seconds, frequency@),
{
    cycles_between(start_time, env.time_seconds, frequency)
}

/// The time from which a participant's cycles count: the recorded start
/// time, or time zero where none is recorded.
pub open spec fn start_or_epoch(start: Option<u64>) -> u64 {
    match start {
        Some(start) => start,
        None => 0,
    }
}

/// The personal cycle, at the moment of the request, of a participant of the
/// plan whose recorded start time is `start`.
pub fn cycle_of(plan: &Plan, start: Option<u64>, env: &Env) -> (cycle: u64)
    ensures
        cycle == personal_cycle(start_or_epoch(start), env.time_seconds, plan@.frequency),
{
    let start_time: u64 = match start {
        Some(start) => start,
        None => 0,
    };
    proof {
        lemma_cycles_by_name(start_time, env.time_seconds, plan.frequency);
    }
    current_cycle_for_participant(start_time, env, plan.frequency.name())
}

/// Where a participant stands in the personal cycle `cycle`: what the plan
/// requires per cycle, what was paid of it and what is left, and the debt
/// beside it.
pub open spec fn spec_participant_status(
    contribution_amount: u128,
    cycle: u64,
    contributed: u128,
    debt: u128,
) -> ParticipantCycleStatusResponse {
    ParticipantCycleStatusResponse {
        cycle,
        required: contribution_amount,
        contributed_this_cycle: contributed,
        remaining_this_cycle: if contributed < contribution_amount {
            (contribution_amount - contributed) as u128
        } else {
            0
        },
        fully_contributed: contributed >= contribution_amount,
        debt,
    }
}

/// Reports where a participant stands in the personal cycle `cycle`, from the
/// ledger entries for what was paid in that cycle and for the debt.
pub fn participant_status(
    plan: &Plan,
    cycle: u64,
    contributed: Option<u128>,
    debt: Option<u128>,
) -> (status: ParticipantCycleStatusResponse)
    ensures
        status == spec_participant_status(
            plan@.contribution_amount,
            cycle,
            spec_amount_or_zero(contributed),
            spec_amount_or_zero(debt),
        ),
{
    let contributed = amount_or_zero(contributed);
    let required = plan.contribution_amount;
    ParticipantCycleStatusResponse {
        cycle,
        required,
        contributed_this_cycle: contributed,
        remaining_this_cycle: required.saturating_sub(contributed),
        fully_contributed: contributed >= required,
        debt: amount_or_zero(debt),
    }
}

/// The cycle before `cycle`, if there is one.
pub open spec fn spec_previous_cycle(cycle: u64) -> Option<u64> {
    if cycle > 0 {
        Some((cycle - 1) as u64)
    } else {
        None
    }
}

/// The cycle before `cycle`, if there is one.
pub fn previous_cycle(cycle: u64) -> (previous: Option<u64>)
    ensures
        previous == spec_previous_cycle(cycle),
{
    if cycle > 0 {
        Some(cycle - 1)
    } else {
        None
    }
}

/// The amount that a ledger entry stands for: nothing where there is no
/// entry.
pub open spec fn spec_amount_or_zero(entry: Option<u128>) -> u128 {
    match entry {
        Some(amount) => amount,
        None => 0,
    }
}

/// The amount that a ledger entry stands for: nothing where there is no
/// entry.
pub fn amount_or_zero(entry: Option<u128>) -> (amount: u128)
    ensures
        amount == spec_amount_or_zero(entry),
{
    match entry {
        Some(amount) => amount,
        None => 0,
    }
}

/// What a successful contribution settles.
#[derive(Clone, Copy, Debug, PartialEq, Eq, Structural)]
pub struct Settlement {
    /// The payer's personal cycle.
    pub cycle: u64,
    /// The payer's debt before the payment was applied, with what the cycle
    /// before left unpaid already moved into it.
    pub debt_before: u128,
    /// Total paid for the cycle, this payment included.
    pub contributed_total_this_cycle: u128,
    /// The payer's debt after the payment.
    pub debt_after: u128,
    /// The payer's trust score after the payment.
    pub trust_after: u64,
}

/// What the cycle before `cycle` left unpaid, where this payment is the first
/// of the cycle; zero otherwise.
pub open spec fn rollover(contribution_amount: u128, cycle: u64, already: u128, prev_paid: u128) -> int {
    if cycle > 0 && already == 0 && prev_paid < contribution_amount {
        contribution_amount - prev_paid
    } else {
        0
    }
}

/// The part of `total` above the plan's contribution.
pub open spec fn excess(total: int, contribution_amount: u128) -> int {
    if total > contribution_amount {
        total - contribution_amount
    } else {
        0
    }
}

/// `debt` less `paid_off`, stopping at zero.
pub open spec fn debt_less(debt: int, paid_off: int) -> int {
    if debt > paid_off {
        debt - paid_off
    } else {
        0
    }
}

/// The settlement of a payment of `amount`, or the reason for which it is
/// refused.
///
/// `already` is what the payer has paid for `cycle` so far, `prev_paid` what
/// was paid for the cycle before (zero in cycle zero), `stored_debt` the
/// recorded debt and `trust` the payer's score.
pub open spec fn spec_settle(
    contribution_amount: u128,
    allow_partial: bool,
    cycle: u64,
    already: u128,
    prev_paid: u128,
    stored_debt: u128,
    trust: u64,
    amount: u128,
) -> Result<Settlement, ErrorView> {
    let debt = stored_debt + rollover(contribution_amount, cycle, already, prev_paid);
    let required = contribution_amount + debt;
    if required > u128::MAX {
        Err(ErrorView::InvalidInput(reason_overflow()))
    } else if already >= required {
        Err(ErrorView::InvalidInput(reason_satisfied()))
    } else if !allow_partial && amount != required - already {
        Err(ErrorView::InvalidInput(reason_inexact()))
    } else if amount > required - already {
        Err(ErrorView::InvalidInput(reason_excess()))
    } else {
        Ok(
            Settlement {
                cycle,
                debt_before: debt as u128,
                contributed_total_this_cycle: (already + amount) as u128,
                debt_after: debt_less(debt, excess(already + amount, contribution_amount)) as u128,
                trust_after: spec_trust_after_contribution(
                    trust,
                    amount,
                    contribution_amount,
                    allow_partial,
                    debt as u128,
                    already,
                    cycle,
                    prev_paid,
                ),
            },
        )
    }
}

/// The outcome of `r` with the failure replaced by its view.
pub open spec fn outcome<T>(r: Result<T, ContractError>) -> Result<T, ErrorView> {
    match r {
        Ok(v) => Ok(v),
        Err(e) => Err(e@),
    }
}

/// Settles a payment of `amount` for the payer's personal cycle `cycle`.
///
/// The payment is refused when the cycle is already paid in full, when the
/// plan takes no partial payments and `amount` is not exactly what is due,
/// when `amount` is more than what is due, and when the debt does not fit the
/// machine's integers.
pub fn settle(
    plan: &Plan,
    cycle: u64,
    already: u128,
    prev_paid: u128,
    stored_debt: u128,
    trust: u64,
    amount: u128,
) -> (r: Result<Settlement, ContractError>)
    ensures
        outcome(r) == spec_settle(
            plan@.contribution_amount,
            plan@.allow_partial,
            cycle,
            already,
            prev_paid,
            stored_debt,
            trust,
            amount,
        ),
{
    let carried: u128 = if cycle > 0 && already == 0 && prev_paid < plan.contribution_amount {
        plan.contribution_amount - prev_paid
    } else {
        0
    };
    let debt: u128 = match stored_debt.checked_add(carried) {
        Some(debt) => debt,
        None => {
            return Err(ContractError::overflow());
        },
    };
    let required: u128 = match plan.contribution_amount.checked_add(debt) {
        Some(required) => required,
        None => {
            return Err(ContractError::overflow());
        },
    };
    if already >= required {
        return Err(ContractError::invalid_input("Already fully contributed this cycle"));
    }
    let remaining: u128 = required - already;
    if !plan.allow_partial && amount != remaining {
        return Err(ContractError::invalid_input("Must contribute exact amount"));
    }
    if amount > remaining {
        return Err(ContractError::invalid_input("Contribution exceeds remaining for this cycle"));
    }
    let new_total: u128 = already + amount;
    let extra: u128 = if new_total > plan.contribution_amount {
        new_total - plan.contribution_amount
    } else {
        0
    };
    let new_debt: u128 = debt.saturating_sub(extra);
    let trust_after = trust_after_contribution(
        trust,
        amount,
        plan.contribution_amount,
        plan.allow_partial,
        debt,
        already,
        cycle,
        prev_paid,
    );
    Ok(
        Settlement {
            cycle,
            debt_before: debt,
            contributed_total_this_cycle: new_total,
            debt_after: new_debt,
            trust_after,
        },
    )
}

/// Whether `sender` may pay `amount` into the plan now: the start time from
/// which the payer's cycles count, or the reason for which the payment is
/// refused.  `sent` is what was transferred with the request and `start` the
/// payer's recorded start time.
pub open spec fn spec_check_contributor(
    plan: PlanView,
    sender: Seq<char>,
    sent: u128,
    amount: u128,
    start: Option<u64>,
) -> Result<u64, ErrorView> {
    if !plan.is_active {
        Err(ErrorView::PlanNotActive)
    } else if !plan.has_member(sender) {
        Err(ErrorView::NotParticipant)
    } else if sent < amount {
        Err(ErrorView::InvalidInput(reason_funds()))
    } else {
        match start {
            Some(start) => Ok(start),
            None => Err(ErrorView::InvalidInput(reason_not_started())),
        }
    }
}

/// Decides whether `sender` may pay `amount` into the plan now, and from which
/// start time the payer's cycles count.
pub fn check_contributor(
    plan: &Plan,
    sender: &String,
    sent: u128,
    amount: u128,
    start: Option<u64>,
) -> (r: Result<u64, ContractError>)
    ensures
        outcome(r) == spec_check_contributor(plan@, sender@, sent, amount, start),
{
    if !plan.is_active {
        return Err(ContractError::PlanNotActive {  });
    }
    if !plan.is_member(sender) {
        return Err(ContractError::NotParticipant {  });
    }
    if sent < amount {
        return Err(ContractError::invalid_input("Insufficient funds sent"));
    }
    match start {
        Some(start) => Ok(start),
        None => Err(ContractError::invalid_input("participant not started")),
    }
}

} // verus!
