//! The reputation counter: how a contribution and an admission move it.
//!
//! A score is an unsigned counter.  It never leaves the range of `u64`: a
//! bonus stops at the largest value and the penalty stops at zero.
use vstd::prelude::*;
use crate::state::DEFAULT_TRUST_SCORE;

verus! {

/// Bonus for paying a whole contribution at once, with no debt, as the first
/// payment of the cycle.
pub const FULL_PAYMENT_BONUS: u64 = 10;

/// Bonus for a payment below the contribution in a plan that takes partial
/// payments.
pub const PARTIAL_PAYMENT_BONUS: u64 = 5;

/// Bonus for a payment made while in debt.
pub const ARREARS_PAYMENT_BONUS: u64 = 4;

/// Penalty for having paid nothing at all in the previous cycle.
pub const MISSED_CYCLE_PENALTY: u64 = 15;

/// Bonus for being admitted to a plan by vote.
pub const ADMISSION_BONUS: u64 = 2;

/// `score + bonus`, stopping at the largest `u64`.
pub open spec fn raised(score: u64, bonus: u64) -> u64 {
    if score + bonus > u64::MAX {
        u64::MAX
    } else {
        (score + bonus) as u64
    }
}

/// `score - penalty`, stopping at zero.
pub open spec fn lowered(score: u64, penalty: u64) -> u64 {
    if score < penalty {
        0
    } else {
        (score - penalty) as u64
    }
}

/// The bonus that the shape of a payment earns.  `debt` and `already` are the
/// payer's debt and the amount paid for the cycle as they stood before the
/// payment.  The first case that applies decides.
pub open spec fn payment_bonus(
    amount: u128,
    contribution_amount: u128,
    allow_partial: bool,
    debt: u128,
    already: u128,
) -> u64 {
    if amount == contribution_amount && debt == 0 && already == 0 {
        FULL_PAYMENT_BONUS
    } else if amount < contribution_amount && allow_partial {
        PARTIAL_PAYMENT_BONUS
    } else if debt > 0 && amount > 0 {
        ARREARS_PAYMENT_BONUS
    } else {
        0
    }
}

/// Whether the payer let the cycle before `cycle` pass without paying
/// anything.
pub open spec fn missed_previous_cycle(cycle: u64, prev_paid: u128) -> bool {
    cycle > 0 && prev_paid == 0
}

/// The score after a contribution: the bonus for the payment's shape is added
/// first, then the penalty for a missed cycle is taken off.
pub open spec fn spec_trust_after_contribution(
    score: u64,
    amount: u128,
    contribution_amount: u128,
    allow_partial: bool,
    debt: u128,
    already: u128,
    cycle: u64,
    prev_paid: u128,
) -> u64 {
    let with_bonus = raised(
        score,
        payment_bonus(amount, contribution_amount, allow_partial, debt, already),
    );
    if missed_previous_cycle(cycle, prev_paid) {
        lowered(with_bonus, MISSED_CYCLE_PENALTY)
    } else {
        with_bonus
    }
}

/// The score after an admission by vote.
pub open spec fn spec_trust_after_admission(score: u64) -> u64 {
    raised(score, ADMISSION_BONUS)
}

/// The score that a stored entry stands for: the entry, or the default score
/// of an identity not seen before.
pub open spec fn spec_trust_or_default(stored: Option<u64>) -> u64 {
    match stored {
        Some(score) => score,
        None => DEFAULT_TRUST_SCORE,
    }
}

/// The score that a stored entry stands for: the entry, or the default score
/// of an identity not seen before.
pub fn trust_or_default(stored: Option<u64>) -> (score: u64)
    ensures
        score == spec_trust_or_default(stored),
{
    match stored {
        Some(score) => score,
        None => DEFAULT_TRUST_SCORE,
    }
}

/// The score after a contribution of `amount` to a plan, given the payer's
/// debt and the amount paid for the cycle before this payment, the payer's
/// personal cycle, and the amount paid in the cycle before it.
pub fn trust_after_contribution(
    score: u64,
    amount: u128,
    contribution_amount: u128,
    allow_partial: bool,
    debt: u128,
    already: u128,
    cycle: u64,
    prev_paid: u128,
) -> (after: u64)
    ensures
        after == spec_trust_after_contribution(
            score,
            amount,
            contribution_amount,
            allow_partial,
            debt,
            already,
            cycle,
            prev_paid,
        ),
{
    let bonus: u64 = if amount == contribution_amount && debt == 0 && already == 0 {
        FULL_PAYMENT_BONUS
    } else if amount < contribution_amount && allow_partial {
        PARTIAL_PAYMENT_BONUS
    } else if debt > 0 && amount > 0 {
        ARREARS_PAYMENT_BONUS
    } else {
        0
    };
    let with_bonus = score.saturating_add(bonus);
    if cycle > 0 && prev_paid == 0 {
        with_bonus.saturating_sub(MISSED_CYCLE_PENALTY)
    } else {
        with_bonus
    }
}

/// The score after an admission by vote.
pub fn trust_after_admission(score: u64) -> (after: u64)
    ensures
        after == spec_trust_after_admission(score),
{
    score.saturating_add(ADMISSION_BONUS)
}

} // verus!
