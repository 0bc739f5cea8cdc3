//! The payout scheduler: when the pot covers a full round, the round is paid
//! to the next member in turn.
use vstd::prelude::*;
use vstd::arithmetic::div_mod::{lemma_mod_self_0, lemma_small_mod};
use crate::error::{reason_overflow, ContractError, ErrorView};
use crate::msg::{payout_view, Payout, PayoutView};
use crate::state::{cycles_per_month, spec_cycles_per_month, Plan, PlanView};

verus! {

/// What one full round of the plan comes to: one contribution from each
/// member.
pub open spec fn total_required(plan: PlanView) -> int {
    plan.contribution_amount * plan.participants.len()
}

/// Number of payout rounds after which the plan concludes.
pub open spec fn total_rounds(plan: PlanView) -> int {
    plan.duration_months * spec_cycles_per_month(plan.frequency)
}

/// The place of the recipient after the current one, in turn.
pub open spec fn next_payout_index(plan: PlanView) -> int {
    (plan.payout_index + 1) % (plan.participants.len() as int)
}

/// The plan after one round was paid out of its pot.
pub open spec fn plan_after_payout(plan: PlanView) -> PlanView {
    PlanView {
        balance: (plan.balance - total_required(plan)) as u128,
        payout_index: next_payout_index(plan) as u32,
        current_cycle: (plan.current_cycle + 1) as u32,
        is_active: plan.current_cycle + 1 < total_rounds(plan),
        ..plan
    }
}

/// The transfer that pays the current round.
pub open spec fn payout_due(plan: PlanView) -> PayoutView {
    PayoutView {
        recipient: plan.participants[plan.payout_index as int],
        amount: total_required(plan) as u128,
    }
}

/// What the scheduler does with a plan: nothing while the plan is inactive or
/// its pot is short of a full round; otherwise it pays the round to the member
/// at the payout cursor, moves the cursor on, counts the round and concludes
/// the plan once its rounds are done.  It fails where the round or a counter
/// does not fit the machine's integers.
pub open spec fn spec_payout(plan: PlanView) -> Result<(PlanView, Option<PayoutView>), ErrorView>
    recommends
        plan.well_formed(),
{
    if !plan.is_active {
        Ok((plan, None))
    } else if total_required(plan) > u128::MAX {
        Err(ErrorView::InvalidInput(reason_overflow()))
    } else if plan.balance < total_required(plan) {
        Ok((plan, None))
    } else if plan.current_cycle + 1 > u32::MAX || next_payout_index(plan) > u32::MAX {
        Err(ErrorView::InvalidInput(reason_overflow()))
    } else {
        Ok((plan_after_payout(plan), Some(payout_due(plan))))
    }
}

/// Pays one round out of the plan's pot if the pot covers it, and returns the
/// transfer to carry out.  On failure the plan is left as it was.
pub fn try_auto_payout(plan: &mut Plan) -> (r: Result<Option<Payout>, ContractError>)
    requires
        old(plan)@.well_formed(),
    ensures
        match spec_payout(old(plan)@) {
            Ok((after, transfer)) => final(plan)@ == after && r is Ok && payout_view(r->Ok_0)
                == transfer,
            Err(e) => final(plan)@ == old(plan)@ && r is Err && r->Err_0@ == e,
        },
        final(plan)@.well_formed(),
{
    if !plan.is_active {
        return Ok(None);
    }
    let members: usize = plan.participants.len();
    let ghost before = plan@;
    assert(before.participants.len() == members);
    let total: u128 = match plan.contribution_amount.checked_mul(members as u128) {
        Some(total) => total,
        None => {
            return Err(ContractError::overflow());
        },
    };
    if plan.balance < total {
        return Ok(None);
    }
    let cursor: usize = plan.payout_index as usize;
    let next: usize = if cursor + 1 == members {
        0
    } else {
        cursor + 1
    };
    proof {
        if cursor + 1 == members {
            lemma_mod_self_0(members as int);
        } else {
            lemma_small_mod((cursor + 1) as nat, members as nat);
        }
        assert(next == next_payout_index(before));
    }
    if plan.current_cycle == u32::MAX || next > u32::MAX as usize {
        return Err(ContractError::overflow());
    }
    let per_month: u64 = cycles_per_month(&plan.frequency) as u64;
    let months: u64 = plan.duration_months as u64;
    assert(months * per_month <= 0xffff_ffff * 30) by (nonlinear_arith)
        requires
            months <= 0xffff_ffff,
            per_month <= 30,
    ;
    let rounds: u64 = months * per_month;
    let recipient = plan.participants[cursor].clone();
    plan.balance = plan.balance - total;
    plan.payout_index = next as u32;
    plan.current_cycle = plan.current_cycle + 1;
    if plan.current_cycle as u64 >= rounds {
        plan.is_active = false;
    }
    Ok(Some(Payout { recipient, amount: total }))
}


/// The plan with `amount` added to its pot.
pub open spec fn plan_credited(plan: PlanView, amount: u128) -> PlanView {
    PlanView { balance: (plan.balance + amount) as u128, ..plan }
}

/// What an accepted contribution of `amount` does to the plan: the amount
/// goes into the pot, and the scheduler then runs on the plan.  It fails where
/// the pot does not fit the machine's integers, and where the scheduler fails.
pub open spec fn spec_credit_and_pay(plan: PlanView, amount: u128) -> Result<
    (PlanView, Option<PayoutView>),
    ErrorView,
>
    recommends
        plan.well_formed(),
{
    if plan.balance + amount > u128::MAX {
        Err(ErrorView::InvalidInput(reason_overflow()))
    } else {
        spec_payout(plan_credited(plan, amount))
    }
}

/// Adds an accepted contribution of `amount` to the plan's pot and runs the
/// scheduler.  On failure the plan is left as it was.
pub fn credit_and_pay(plan: &mut Plan, amount: u128) -> (r: Result<Option<Payout>, ContractError>)
    requires
        old(plan)@.well_formed(),
    ensures
        match spec_credit_and_pay(old(plan)@, amount) {
            Ok((after, transfer)) => final(plan)@ == after && r is Ok && payout_view(r->Ok_0)
                == transfer,
            Err(e) => final(plan)@ == old(plan)@ && r is Err && r->Err_0@ == e,
        },
        final(plan)@.well_formed(),
{
    let balance_before = plan.balance;
    plan.balance = match plan.balance.checked_add(amount) {
        Some(balance) => balance,
        None => {
            return Err(ContractError::overflow());
        },
    };
    match try_auto_payout(plan) {
        Ok(transfer) => Ok(transfer),
        Err(e) => {
            plan.balance = balance_before;
            Err(e)
        },
    }
}

} // verus!
