//! The requests of the engine, each carried out on the ledger as one step
//! that either takes effect as a whole or is refused and changes nothing.
use vstd::prelude::*;
use crate::accounting::{
    amount_or_zero, check_contributor, cycle_of, personal_cycle, previous_cycle, settle,
    spec_check_contributor, spec_settle, Settlement,
};
use crate::error::{reason_overflow, ContractError, ErrorView};
use crate::governance::{
    cast_approval, cast_denial, fresh_request, join, new_request, pending_request,
    spec_cast_approval, spec_cast_denial, spec_join, Verdict,
};
use crate::ledger::{Ledger, LedgerView};
use crate::msg::{
    coins, funds_sent, spec_funds_sent, Env, ExecuteMsg, ExecuteMsgView, InstantiateMsg,
    MessageInfo, Response, ResponseView,
};
use crate::payout::{credit_and_pay, spec_credit_and_pay};
use crate::registry::{
    check_plan_parameters, creator_index_with, existing_plan, next_plan_id, open_plan,
    spec_new_plan,
};
use crate::state::{Config, JoinRequest, JoinRequestView, Plan, PlanView};
use crate::trust::{spec_trust_after_admission, trust_after_admission, trust_or_default};

verus! {

/// A copy of the plan that a lookup found.
fn copy_of_plan(found: Option<&Plan>) -> (copy: Option<Plan>)
    ensures
        match found {
            Some(plan) => copy is Some && copy->Some_0@ == plan@,
            None => copy is None,
        },
{
    match found {
        Some(plan) => Some(plan.clone()),
        None => None,
    }
}

/// A copy of the join request that a lookup found.
fn copy_of_request(found: Option<&JoinRequest>) -> (copy: Option<JoinRequest>)
    ensures
        match found {
            Some(request) => copy is Some && copy->Some_0@ == request@,
            None => copy is None,
        },
{
    match found {
        Some(request) => Some(request.clone()),
        None => None,
    }
}

/// What a request does: the ledger after it, and the answer given.
pub struct Step {
    pub ledger: LedgerView,
    pub outcome: Result<ResponseView, ErrorView>,
}

/// The step of a request that is refused: the ledger stays as it was.
pub open spec fn refused(ledger: LedgerView, reason: ErrorView) -> Step {
    Step { ledger, outcome: Err(reason) }
}

/// The step of a request that is carried out.
pub open spec fn carried_out(ledger: LedgerView, answer: ResponseView) -> Step {
    Step { ledger, outcome: Ok(answer) }
}

/// The answer with each text replaced by its characters.
pub open spec fn answer_view(r: Result<Response, ContractError>) -> Result<ResponseView, ErrorView> {
    match r {
        Ok(response) => Ok(response@),
        Err(e) => Err(e@),
    }
}

/// The ledger after an accepted contribution: the plan as the payout
/// scheduler left it, and the payer's ledger entries as settled.
pub open spec fn ledger_after_contribution(
    s: LedgerView,
    plan_id: u64,
    sender: Seq<char>,
    plan_after: PlanView,
    settlement: Settlement,
) -> LedgerView {
    LedgerView {
        plans: s.plans.insert(plan_id, plan_after),
        contributions: s.contributions.insert(
            (plan_id, sender, settlement.cycle),
            settlement.contributed_total_this_cycle,
        ),
        user_debt: s.user_debt.insert((plan_id, sender), settlement.debt_after),
        trust_scores: s.trust_scores.insert(sender, settlement.trust_after),
        ..s
    }
}

/// The settlement of a contribution of `amount` by `sender` at time `now`,
/// with `sent` transferred: the payer's personal cycle is counted from the
/// payer's own start time, and the payment is settled against what the payer
/// has paid for that cycle and the one before, the payer's debt and score.
pub open spec fn contribution_settlement(
    s: LedgerView,
    now: u64,
    sender: Seq<char>,
    sent: u128,
    plan_id: u64,
    amount: u128,
) -> Result<Settlement, ErrorView>
    recommends
        s.plans.contains_key(plan_id),
{
    let plan = s.plans[plan_id];
    match spec_check_contributor(plan, sender, sent, amount, s.start_of(plan_id, sender)) {
        Err(e) => Err(e),
        Ok(start) => {
            let cycle = personal_cycle(start, now, plan.frequency);
            spec_settle(
                plan.contribution_amount,
                plan.allow_partial,
                cycle,
                s.paid(plan_id, sender, cycle),
                s.paid_before(plan_id, sender, cycle),
                s.debt_of(plan_id, sender),
                s.trust_of(sender),
                amount,
            )
        },
    }
}

/// The step of a contribution of `amount` to plan `plan_id` by `sender` at
/// time `now`, with `sent` transferred in the settlement unit.
///
/// The contribution is settled, the amount is added to the plan's pot, and the
/// payout scheduler then runs on the plan.  The request is refused if the plan
/// is missing, if the settlement is refused, and if the pot or the payout does
/// not fit the machine's integers.  The ledger entries of the cycles are not
/// reset by a payout: each participant's cycles go on counting.
pub open spec fn contribute_step(
    s: LedgerView,
    now: u64,
    sender: Seq<char>,
    sent: u128,
    plan_id: u64,
    amount: u128,
) -> Step {
    if !s.plans.contains_key(plan_id) {
        refused(s, ErrorView::PlanNotFound(plan_id))
    } else {
        let plan = s.plans[plan_id];
        match contribution_settlement(s, now, sender, sent, plan_id, amount) {
            Err(e) => refused(s, e),
            Ok(settlement) => match spec_credit_and_pay(plan, amount) {
                Err(e) => refused(s, e),
                Ok((plan_after, transfer)) => carried_out(
                    ledger_after_contribution(s, plan_id, sender, plan_after, settlement),
                    ResponseView::Contributed {
                        cycle: settlement.cycle,
                        contributed_total_this_cycle: settlement.contributed_total_this_cycle,
                        debt_after: settlement.debt_after,
                        auto_payout: transfer,
                    },
                ),
            },
        }
    }
}

/// Takes a contribution of `amount` from the sender into plan `plan_id`.
pub fn execute_contribute(
    ledger: &mut Ledger,
    env: &Env,
    info: &MessageInfo,
    plan_id: u64,
    amount: u128,
) -> (r: Result<Response, ContractError>)
    requires
        old(ledger).wf(),
    ensures
        final(ledger).wf(),
        final(ledger)@ == contribute_step(
            old(ledger)@,
            env.time_seconds,
            info.sender@,
            spec_funds_sent(coins(info.funds@)),
            plan_id,
            amount,
        ).ledger,
        answer_view(r) == contribute_step(
            old(ledger)@,
            env.time_seconds,
            info.sender@,
            spec_funds_sent(coins(info.funds@)),
            plan_id,
            amount,
        ).outcome,
{
    let ghost s = ledger@;
    let mut plan: Plan = match existing_plan(copy_of_plan(ledger.plan(plan_id)), plan_id) {
        Ok(plan) => plan,
        Err(e) => {
            return Err(e);
        },
    };
    let sender = &info.sender;
    let sent = funds_sent(&info.funds);
    let start = match check_contributor(
        &plan,
        sender,
        sent,
        amount,
        ledger.participant_start(plan_id, sender),
    ) {
        Ok(start) => start,
        Err(e) => {
            return Err(e);
        },
    };
    let cycle = cycle_of(&plan, Some(start), env);
    let already = amount_or_zero(ledger.contribution(plan_id, sender, cycle));
    let prev_paid = match previous_cycle(cycle) {
        Some(previous) => amount_or_zero(ledger.contribution(plan_id, sender, previous)),
        None => 0,
    };
    let stored_debt = amount_or_zero(ledger.debt(plan_id, sender));
    let trust = trust_or_default(ledger.trust_score(sender));
    let settlement = match settle(&plan, cycle, already, prev_paid, stored_debt, trust, amount) {
        Ok(settlement) => settlement,
        Err(e) => {
            return Err(e);
        },
    };
    let transfer = match credit_and_pay(&mut plan, amount) {
        Ok(transfer) => transfer,
        Err(e) => {
            return Err(e);
        },
    };
    ledger.save_trust_score(sender, settlement.trust_after);
    ledger.save_plan(plan);
    ledger.save_contribution(plan_id, sender, cycle, settlement.contributed_total_this_cycle);
    ledger.save_debt(plan_id, sender, settlement.debt_after);
    Ok(
        Response::Contributed {
            cycle,
            contributed_total_this_cycle: settlement.contributed_total_this_cycle,
            debt_after: settlement.debt_after,
            auto_payout: transfer,
        },
    )
}

/// The step of the creation of a plan by `sender` at time `now`.
///
/// The parameters are checked; the plan gets the identity after the latest
/// one; its creator is its first member, with `now` as start time; and the
/// identity is added to the creator's list.  The request is refused if the
/// parameters make no plan, and if no identity is left.
pub open spec fn create_plan_step(
    s: LedgerView,
    now: u64,
    sender: Seq<char>,
    name: Seq<char>,
    description: Seq<char>,
    total_participants: u32,
    contribution_amount: u128,
    frequency: Seq<char>,
    duration_months: u32,
    trust_score_required: u32,
    allow_partial: bool,
) -> Step {
    let id = (s.plan_count + 1) as u64;
    match spec_new_plan(
        id,
        sender,
        name,
        description,
        total_participants,
        contribution_amount,
        frequency,
        duration_months,
        trust_score_required,
        allow_partial,
    ) {
        Err(e) => refused(s, e),
        Ok(plan) => if s.plan_count + 1 > u64::MAX {
            refused(s, ErrorView::InvalidInput(reason_overflow()))
        } else {
            carried_out(
                LedgerView {
                    plan_count: id,
                    plans: s.plans.insert(id, plan),
                    plans_by_creator: s.plans_by_creator.insert(sender, s.plans_of(sender).push(id)),
                    participant_start: s.participant_start.insert((id, sender), now),
                    ..s
                },
                ResponseView::PlanCreated { plan_id: id },
            )
        },
    }
}

/// Creates a plan for the sender.
pub fn execute_create_plan(
    ledger: &mut Ledger,
    env: &Env,
    info: &MessageInfo,
    name: String,
    description: String,
    total_participants: u32,
    contribution_amount: u128,
    frequency: String,
    duration_months: u32,
    trust_score_required: u32,
    allow_partial: bool,
) -> (r: Result<Response, ContractError>)
    requires
        old(ledger).wf(),
    ensures
        final(ledger).wf(),
        final(ledger)@ == create_plan_step(
            old(ledger)@,
            env.time_seconds,
            info.sender@,
            name@,
            description@,
            total_participants,
            contribution_amount,
            frequency@,
            duration_months,
            trust_score_required,
            allow_partial,
        ).ledger,
        answer_view(r) == create_plan_step(
            old(ledger)@,
            env.time_seconds,
            info.sender@,
            name@,
            description@,
            total_participants,
            contribution_amount,
            frequency@,
            duration_months,
            trust_score_required,
            allow_partial,
        ).outcome,
{
    let cadence = match check_plan_parameters(
        &name,
        &description,
        total_participants,
        contribution_amount,
        frequency.as_str(),
        duration_months,
    ) {
        Ok(cadence) => cadence,
        Err(e) => {
            return Err(e);
        },
    };
    let plan_id = match next_plan_id(ledger.plan_count()) {
        Ok(plan_id) => plan_id,
        Err(e) => {
            return Err(e);
        },
    };
    let plan = open_plan(
        plan_id,
        &info.sender,
        name,
        description,
        total_participants,
        contribution_amount,
        cadence,
        duration_months,
        trust_score_required,
        allow_partial,
    );
    ledger.save_plan(plan);
    ledger.save_plan_count(plan_id);
    let listed: Option<Vec<u64>> = match ledger.creator_plans(&info.sender) {
        Some(ids) => Some(ids.clone()),
        None => None,
    };
    ledger.save_creator_plans(info.sender.clone(), creator_index_with(listed, plan_id));
    ledger.save_participant_start(plan_id, &info.sender, env.time_seconds);
    Ok(Response::PlanCreated { plan_id })
}


/// The step of a direct join of plan `plan_id` by `sender` at time `now`.
///
/// The sender joins with the recorded trust score, or the default one, and
/// gets `now` as start time.  The request is refused if the plan is missing
/// or does not take the sender.
pub open spec fn join_plan_step(s: LedgerView, now: u64, sender: Seq<char>, plan_id: u64) -> Step {
    if !s.plans.contains_key(plan_id) {
        refused(s, ErrorView::PlanNotFound(plan_id))
    } else {
        match spec_join(s.plans[plan_id], sender, s.trust_of(sender)) {
            Err(e) => refused(s, e),
            Ok(plan) => carried_out(
                LedgerView {
                    plans: s.plans.insert(plan_id, plan),
                    participant_start: s.participant_start.insert((plan_id, sender), now),
                    ..s
                },
                ResponseView::Acknowledged,
            ),
        }
    }
}

/// Lets the sender join plan `plan_id` directly.
pub fn execute_join_plan(ledger: &mut Ledger, env: &Env, info: &MessageInfo, plan_id: u64) -> (r:
    Result<Response, ContractError>)
    requires
        old(ledger).wf(),
    ensures
        final(ledger).wf(),
        final(ledger)@ == join_plan_step(
            old(ledger)@,
            env.time_seconds,
            info.sender@,
            plan_id,
        ).ledger,
        answer_view(r) == join_plan_step(
            old(ledger)@,
            env.time_seconds,
            info.sender@,
            plan_id,
        ).outcome,
{
    let mut plan: Plan = match existing_plan(copy_of_plan(ledger.plan(plan_id)), plan_id) {
        Ok(plan) => plan,
        Err(e) => {
            return Err(e);
        },
    };
    let trust = trust_or_default(ledger.trust_score(&info.sender));
    match join(&mut plan, &info.sender, trust) {
        Ok(()) => {},
        Err(e) => {
            return Err(e);
        },
    }
    ledger.save_plan(plan);
    ledger.save_participant_start(plan_id, &info.sender, env.time_seconds);
    Ok(Response::Acknowledged)
}

/// The step of a request by `sender` to join plan `plan_id`: a fresh request
/// is filed, unless one of the sender for that plan is pending.
pub open spec fn request_to_join_step(s: LedgerView, sender: Seq<char>, plan_id: u64) -> Step {
    if s.join_requests.contains_key((plan_id, sender)) {
        refused(s, ErrorView::AlreadyRequested)
    } else {
        carried_out(
            LedgerView {
                join_requests: s.join_requests.insert(
                    (plan_id, sender),
                    fresh_request(plan_id, sender),
                ),
                ..s
            },
            ResponseView::Acknowledged,
        )
    }
}

/// Files the sender's request to join plan `plan_id`.
pub fn request_to_join_plan(ledger: &mut Ledger, info: &MessageInfo, plan_id: u64) -> (r: Result<
    Response,
    ContractError,
>)
    requires
        old(ledger).wf(),
    ensures
        final(ledger).wf(),
        final(ledger)@ == request_to_join_step(old(ledger)@, info.sender@, plan_id).ledger,
        answer_view(r) == request_to_join_step(old(ledger)@, info.sender@, plan_id).outcome,
{
    let pending = ledger.join_request(plan_id, &info.sender).is_some();
    match new_request(pending, plan_id, info.sender.clone()) {
        Ok(request) => {
            ledger.save_join_request(request);
            Ok(Response::Acknowledged)
        },
        Err(e) => Err(e),
    }
}

/// The ledger after `requester` was admitted to plan `plan_id` at time `now`:
/// the plan has its new member, the requester's trust score is raised and
/// start time set, and the request is closed.
pub open spec fn ledger_after_admission(
    s: LedgerView,
    now: u64,
    plan_id: u64,
    requester: Seq<char>,
    plan_after: PlanView,
) -> LedgerView {
    LedgerView {
        plans: s.plans.insert(plan_id, plan_after),
        join_requests: s.join_requests.remove((plan_id, requester)),
        trust_scores: s.trust_scores.insert(
            requester,
            spec_trust_after_admission(s.trust_of(requester)),
        ),
        participant_start: s.participant_start.insert((plan_id, requester), now),
        ..s
    }
}

/// The step of an approval, by `voter` at time `now`, of the request of
/// `requester` to join plan `plan_id`.
///
/// The request is refused if the plan or the join request is missing.  A
/// voter who has voted on the join request before changes nothing.
pub open spec fn approve_step(
    s: LedgerView,
    now: u64,
    voter: Seq<char>,
    plan_id: u64,
    requester: Seq<char>,
) -> Step {
    let key = (plan_id, requester);
    if !s.plans.contains_key(plan_id) {
        refused(s, ErrorView::PlanNotFound(plan_id))
    } else if !s.join_requests.contains_key(key) {
        refused(s, ErrorView::NotFound)
    } else {
        let (plan, request, verdict) = spec_cast_approval(
            s.plans[plan_id],
            s.join_requests[key],
            voter,
        );
        match verdict {
            Verdict::Admitted => carried_out(
                ledger_after_admission(s, now, plan_id, requester, plan),
                ResponseView::Acknowledged,
            ),
            Verdict::Recorded => carried_out(
                LedgerView { join_requests: s.join_requests.insert(key, request), ..s },
                ResponseView::Acknowledged,
            ),
            _ => carried_out(s, ResponseView::Acknowledged),
        }
    }
}

/// Casts the sender's approval of the request of `requester` to join plan
/// `plan_id`.
pub fn approve_join_request(
    ledger: &mut Ledger,
    env: &Env,
    info: &MessageInfo,
    plan_id: u64,
    requester: String,
) -> (r: Result<Response, ContractError>)
    requires
        old(ledger).wf(),
    ensures
        final(ledger).wf(),
        final(ledger)@ == approve_step(
            old(ledger)@,
            env.time_seconds,
            info.sender@,
            plan_id,
            requester@,
        ).ledger,
        answer_view(r) == approve_step(
            old(ledger)@,
            env.time_seconds,
            info.sender@,
            plan_id,
            requester@,
        ).outcome,
{
    let ghost s = ledger@;
    let mut plan: Plan = match existing_plan(copy_of_plan(ledger.plan(plan_id)), plan_id) {
        Ok(plan) => plan,
        Err(e) => {
            return Err(e);
        },
    };
    let mut request: JoinRequest = match pending_request(
        copy_of_request(ledger.join_request(plan_id, &requester)),
    ) {
        Ok(request) => request,
        Err(e) => {
            return Err(e);
        },
    };
    let trust = trust_or_default(ledger.trust_score(&requester));
    match cast_approval(&mut plan, &mut request, &info.sender) {
        Verdict::Admitted => {
            ledger.save_participant_start(plan_id, &requester, env.time_seconds);
            ledger.save_plan(plan);
            ledger.remove_join_request(plan_id, &requester);
            ledger.save_trust_score(&requester, trust_after_admission(trust));
            proof {
                assert(ledger@ =~= ledger_after_admission(
                    s,
                    env.time_seconds,
                    plan_id,
                    requester@,
                    plan@,
                ));
            }
        },
        Verdict::Recorded => {
            ledger.save_join_request(request);
        },
        _ => {},
    }
    Ok(Response::Acknowledged)
}

/// The step of a denial, by `voter`, of the request of `requester` to join
/// plan `plan_id`.
///
/// The request is refused if the plan or the join request is missing.  A
/// voter who has voted on the join request before changes nothing.  Once the
/// denials carry, the join request is closed, and nothing else changes.
pub open spec fn deny_step(s: LedgerView, voter: Seq<char>, plan_id: u64, requester: Seq<char>) -> Step {
    let key = (plan_id, requester);
    if !s.plans.contains_key(plan_id) {
        refused(s, ErrorView::PlanNotFound(plan_id))
    } else if !s.join_requests.contains_key(key) {
        refused(s, ErrorView::NotFound)
    } else {
        let (request, verdict) = spec_cast_denial(s.plans[plan_id], s.join_requests[key], voter);
        match verdict {
            Verdict::Rejected => carried_out(
                LedgerView { join_requests: s.join_requests.remove(key), ..s },
                ResponseView::Acknowledged,
            ),
            Verdict::Recorded => carried_out(
                LedgerView { join_requests: s.join_requests.insert(key, request), ..s },
                ResponseView::Acknowledged,
            ),
            _ => carried_out(s, ResponseView::Acknowledged),
        }
    }
}

/// Casts the sender's denial of the request of `requester` to join plan
/// `plan_id`.
pub fn deny_join_request(
    ledger: &mut Ledger,
    env: &Env,
    info: &MessageInfo,
    plan_id: u64,
    requester: String,
) -> (r: Result<Response, ContractError>)
    requires
        old(ledger).wf(),
    ensures
        final(ledger).wf(),
        final(ledger)@ == deny_step(old(ledger)@, info.sender@, plan_id, requester@).ledger,
        answer_view(r) == deny_step(old(ledger)@, info.sender@, plan_id, requester@).outcome,
{
    let plan: Plan = match existing_plan(copy_of_plan(ledger.plan(plan_id)), plan_id) {
        Ok(plan) => plan,
        Err(e) => {
            return Err(e);
        },
    };
    let mut request: JoinRequest = match pending_request(
        copy_of_request(ledger.join_request(plan_id, &requester)),
    ) {
        Ok(request) => request,
        Err(e) => {
            return Err(e);
        },
    };
    match cast_denial(&plan, &mut request, &info.sender) {
        Verdict::Rejected => {
            ledger.remove_join_request(plan_id, &requester);
        },
        Verdict::Recorded => {
            ledger.save_join_request(request);
        },
        _ => {},
    }
    Ok(Response::Acknowledged)
}

/// The ledger after it was set up by `sender`: the sender holds the
/// administrative role and no plan is counted.
pub open spec fn instantiated(s: LedgerView, sender: Seq<char>) -> LedgerView {
    LedgerView { admin: Some(sender), plan_count: 0, ..s }
}

/// Sets the ledger up: the sender becomes its administrator and the count of
/// plans starts at zero.
pub fn instantiate(ledger: &mut Ledger, env: &Env, info: &MessageInfo, msg: InstantiateMsg) -> (r:
    Result<Response, ContractError>)
    requires
        old(ledger).wf(),
    ensures
        final(ledger).wf(),
        final(ledger)@ == instantiated(old(ledger)@, info.sender@),
        answer_view(r) == Ok::<ResponseView, ErrorView>(ResponseView::Instantiated),
{
    ledger.save_config(Config { admin: info.sender.clone() });
    ledger.save_plan_count(0);
    Ok(Response::Instantiated)
}

/// The step of any request of `sender` at time `now`, with `sent` transferred
/// in the settlement unit.
pub open spec fn execute_step(
    s: LedgerView,
    now: u64,
    sender: Seq<char>,
    sent: u128,
    msg: ExecuteMsgView,
) -> Step {
    match msg {
        ExecuteMsgView::CreatePlan {
            name,
            description,
            total_participants,
            contribution_amount,
            frequency,
            duration_months,
            trust_score_required,
            allow_partial,
        } => create_plan_step(
            s,
            now,
            sender,
            name,
            description,
            total_participants,
            contribution_amount,
            frequency,
            duration_months,
            trust_score_required,
            allow_partial,
        ),
        ExecuteMsgView::JoinPlan { plan_id } => join_plan_step(s, now, sender, plan_id),
        ExecuteMsgView::RequestToJoinPlan { plan_id } => request_to_join_step(s, sender, plan_id),
        ExecuteMsgView::ApproveJoinRequest { plan_id, requester } => approve_step(
            s,
            now,
            sender,
            plan_id,
            requester,
        ),
        ExecuteMsgView::DenyJoinRequest { plan_id, requester } => deny_step(
            s,
            sender,
            plan_id,
            requester,
        ),
        ExecuteMsgView::Contribute { plan_id, amount } => contribute_step(
            s,
            now,
            sender,
            sent,
            plan_id,
            amount,
        ),
    }
}

/// Carries out a request that changes the ledger.
pub fn execute(ledger: &mut Ledger, env: &Env, info: &MessageInfo, msg: ExecuteMsg) -> (r: Result<
    Response,
    ContractError,
>)
    requires
        old(ledger).wf(),
    ensures
        final(ledger).wf(),
        final(ledger)@ == execute_step(
            old(ledger)@,
            env.time_seconds,
            info.sender@,
            spec_funds_sent(coins(info.funds@)),
            msg@,
        ).ledger,
        answer_view(r) == execute_step(
            old(ledger)@,
            env.time_seconds,
            info.sender@,
            spec_funds_sent(coins(info.funds@)),
            msg@,
        ).outcome,
{
    match msg {
        ExecuteMsg::CreatePlan {
            name,
            description,
            total_participants,
            contribution_amount,
            frequency,
            duration_months,
            trust_score_required,
            allow_partial,
        } => execute_create_plan(
            ledger,
            env,
            info,
            name,
            description,
            total_participants,
            contribution_amount,
            frequency,
            duration_months,
            trust_score_required,
            allow_partial,
        ),
        ExecuteMsg::JoinPlan { plan_id } => execute_join_plan(ledger, env, info, plan_id),
        ExecuteMsg::RequestToJoinPlan { plan_id } => request_to_join_plan(ledger, info, plan_id),
        ExecuteMsg::ApproveJoinRequest { plan_id, requester } => approve_join_request(
            ledger,
            env,
            info,
            plan_id,
            requester,
        ),
        ExecuteMsg::DenyJoinRequest { plan_id, requester } => deny_join_request(
            ledger,
            env,
            info,
            plan_id,
            requester,
        ),
        ExecuteMsg::Contribute { plan_id, amount } => execute_contribute(
            ledger,
            env,
            info,
            plan_id,
            amount,
        ),
    }
}

} // verus!
