//! What holds of every step of the engine, proved over the model of the
//! ledger.
use vstd::prelude::*;
use crate::accounting::{debt_less, excess, rollover};
use crate::contract::{
    approve_step, contribute_step, contribution_settlement, create_plan_step, execute_step, Step,
};
use crate::error::ErrorView;
use crate::governance::{spec_cast_approval, Verdict};
use crate::ledger::LedgerView;
use crate::msg::{ExecuteMsgView, ResponseView};
use crate::payout::{payout_due, plan_credited, total_required};
use crate::query::plan_answer;
use crate::registry::opened_plan;
use crate::state::{frequency_named, PlanView};

verus! {

/// Every stored plan has an identity between one and the count of plans.
pub open spec fn ids_allocated(s: LedgerView) -> bool {
    forall|id: u64| #[trigger] s.plans.contains_key(id) ==> 1 <= id <= s.plan_count
}

/// No plan lists a member twice.
pub open spec fn members_distinct(s: LedgerView) -> bool {
    forall|id: u64| #[trigger] s.plans.contains_key(id) ==> s.plans[id].participants.no_duplicates()
}

/// No plan holds more members than it was created for.
pub open spec fn plans_within_capacity(s: LedgerView) -> bool {
    forall|id: u64| #[trigger] s.plans.contains_key(id) ==> s.plans[id].within_capacity()
}

/// Whether the request is an approval for a requester who is a member of the
/// plan already.
pub open spec fn approves_a_member(s: LedgerView, msg: ExecuteMsgView) -> bool {
    msg matches ExecuteMsgView::ApproveJoinRequest { plan_id, requester } && s.plans.contains_key(
        plan_id,
    ) && s.plans[plan_id].has_member(requester)
}

/// Whether the request is an approval for a plan that is full already.
pub open spec fn approves_into_full_plan(s: LedgerView, msg: ExecuteMsgView) -> bool {
    msg matches ExecuteMsgView::ApproveJoinRequest { plan_id, requester } && s.plans.contains_key(
        plan_id,
    ) && s.plans[plan_id].participants.len() >= s.plans[plan_id].total_participants
}

/// On every pending join request each voter stands once: no identity is
/// listed twice among the approvals and the denials taken together.
pub open spec fn votes_distinct(s: LedgerView) -> bool {
    forall|key: (u64, Seq<char>)| #[trigger]
        s.join_requests.contains_key(key) ==> (s.join_requests[key].approvals
            + s.join_requests[key].denials).no_duplicates()
}

/// The amount of the payout that a step reports, or nothing.
pub open spec fn paid_out(outcome: Result<ResponseView, ErrorView>) -> int {
    match outcome {
        Ok(ResponseView::Contributed { auto_payout: Some(payout), .. }) => payout.amount as int,
        _ => 0,
    }
}

/// Whether the request is a contribution to plan `plan_id`.
pub open spec fn contributes_to(msg: ExecuteMsgView, plan_id: u64) -> bool {
    msg is Contribute && msg->Contribute_plan_id == plan_id
}

/// The pot of plan `plan_id`, or nothing where there is no such plan.
pub open spec fn pot(s: LedgerView, plan_id: u64) -> int {
    if s.plans.contains_key(plan_id) {
        s.plans[plan_id].balance as int
    } else {
        0
    }
}

/// A request that is refused leaves the ledger exactly as it was.
pub proof fn theorem_refusal_changes_nothing(
    s: LedgerView,
    now: u64,
    sender: Seq<char>,
    sent: u128,
    msg: ExecuteMsgView,
)
    ensures
        execute_step(s, now, sender, sent, msg).outcome is Err ==> execute_step(
            s,
            now,
            sender,
            sent,
            msg,
        ).ledger == s,
{
}

/// Every step keeps the ledger well formed: a plan stays under its own
/// identity with its payout cursor at a member, and a join request stays
/// under its own plan and requester.
pub proof fn theorem_well_formedness_is_kept(
    s: LedgerView,
    now: u64,
    sender: Seq<char>,
    sent: u128,
    msg: ExecuteMsgView,
)
    requires
        s.well_formed(),
    ensures
        execute_step(s, now, sender, sent, msg).ledger.well_formed(),
{
    let after = execute_step(s, now, sender, sent, msg).ledger;
    assert forall|id: u64| #[trigger] after.plans.contains_key(id) implies after.plans[id].id == id
        && after.plans[id].well_formed() by {
        if s.plans.contains_key(id) {
            assert(s.plans[id].well_formed());
        }
    }
    assert forall|key: (u64, Seq<char>)| #[trigger]
        after.join_requests.contains_key(key) implies after.join_requests[key].plan_id == key.0
        && after.join_requests[key].requester == key.1 by {
        if s.join_requests.contains_key(key) {
            assert(s.join_requests[key].plan_id == key.0);
        }
    }
}

/// Plan identities are handed out in increasing order, one by one: the plan
/// that a step creates gets the identity after the latest, and that identity
/// becomes the latest; no other step moves the count of plans.
pub proof fn theorem_plan_ids_count_up(
    s: LedgerView,
    now: u64,
    sender: Seq<char>,
    sent: u128,
    msg: ExecuteMsgView,
)
    ensures
        match execute_step(s, now, sender, sent, msg).outcome {
            Ok(ResponseView::PlanCreated { plan_id }) => plan_id == s.plan_count + 1
                && execute_step(s, now, sender, sent, msg).ledger.plan_count == plan_id,
            _ => execute_step(s, now, sender, sent, msg).ledger.plan_count == s.plan_count,
        },
        execute_step(s, now, sender, sent, msg).outcome is Ok && msg is CreatePlan
            ==> execute_step(s, now, sender, sent, msg).outcome->Ok_0 is PlanCreated,
{
}

/// The first plan of a ledger in which none was created yet gets identity 1.
pub proof fn theorem_first_plan_id_is_one(
    s: LedgerView,
    now: u64,
    sender: Seq<char>,
    sent: u128,
    msg: ExecuteMsgView,
)
    requires
        s.plan_count == 0,
        execute_step(s, now, sender, sent, msg).outcome is Ok,
        msg is CreatePlan,
    ensures
        execute_step(s, now, sender, sent, msg).outcome == Ok::<ResponseView, ErrorView>(
            ResponseView::PlanCreated { plan_id: 1 },
        ),
{
}

/// No identity is given to two plans: the identity of a plan that a step
/// creates was free before the step, every plan that was stored before is
/// stored unchanged under its identity after, and all identities stay
/// between one and the count of plans.
pub proof fn theorem_plan_ids_are_fresh(
    s: LedgerView,
    now: u64,
    sender: Seq<char>,
    sent: u128,
    msg: ExecuteMsgView,
)
    requires
        ids_allocated(s),
    ensures
        ids_allocated(execute_step(s, now, sender, sent, msg).ledger),
        execute_step(s, now, sender, sent, msg).outcome matches Ok(
            ResponseView::PlanCreated { plan_id },
        ) ==> !s.plans.contains_key(plan_id) && execute_step(
            s,
            now,
            sender,
            sent,
            msg,
        ).ledger.plans.contains_key(plan_id) && forall|other: u64| #[trigger]
            s.plans.contains_key(other) ==> execute_step(
                s,
                now,
                sender,
                sent,
                msg,
            ).ledger.plans.contains_key(other) && execute_step(
                s,
                now,
                sender,
                sent,
                msg,
            ).ledger.plans[other] == s.plans[other],
{
    let after = execute_step(s, now, sender, sent, msg).ledger;
    assert forall|id: u64| #[trigger] after.plans.contains_key(id) implies 1 <= id
        <= after.plan_count by {
        if s.plans.contains_key(id) {
        }
    }
}

/// The ledger that holds nothing has no identity in use.
pub proof fn theorem_empty_ledger_is_sound()
    ensures
        LedgerView::empty().well_formed(),
        ids_allocated(LedgerView::empty()),
        members_distinct(LedgerView::empty()),
        plans_within_capacity(LedgerView::empty()),
{
}

/// A sequence without repetition stays so when a new element is put in.
pub proof fn lemma_insert_keeps_distinct(list: Seq<Seq<char>>, at: int, who: Seq<char>)
    requires
        list.no_duplicates(),
        !list.contains(who),
        0 <= at <= list.len(),
    ensures
        list.insert(at, who).no_duplicates(),
{
    let after = list.insert(at, who);
    assert forall|i: int, j: int| 0 <= i < after.len() && 0 <= j < after.len() && i != j implies after[i]
        != after[j] by {
        let i0 = if i < at {
            i
        } else {
            i - 1
        };
        let j0 = if j < at {
            j
        } else {
            j - 1
        };
        if i == at {
            assert(after[j] == list[j0]);
        } else if j == at {
            assert(after[i] == list[i0]);
        } else {
            assert(after[i] == list[i0]);
            assert(after[j] == list[j0]);
        }
    }
}

/// No step lists a member twice in a plan, except an approval for a requester
/// who is a member already.
pub proof fn theorem_members_stay_distinct(
    s: LedgerView,
    now: u64,
    sender: Seq<char>,
    sent: u128,
    msg: ExecuteMsgView,
)
    requires
        s.well_formed(),
        members_distinct(s),
        !approves_a_member(s, msg),
    ensures
        members_distinct(execute_step(s, now, sender, sent, msg).ledger),
{
    let after = execute_step(s, now, sender, sent, msg).ledger;
    assert forall|id: u64| #[trigger] after.plans.contains_key(id) implies after.plans[id].participants.no_duplicates() by {
        if s.plans.contains_key(id) {
            let before = s.plans[id].participants;
            assert(before.no_duplicates());
            assert(s.plans[id].well_formed());
            if after.plans[id].participants != before {
                match msg {
                    ExecuteMsgView::ApproveJoinRequest { plan_id, requester } => {
                        lemma_insert_keeps_distinct(
                            before,
                            s.plans[id].payout_index as int,
                            requester,
                        );
                    },
                    ExecuteMsgView::JoinPlan { plan_id } => {
                        lemma_insert_keeps_distinct(before, before.len() as int, sender);
                        assert(before.insert(before.len() as int, sender) =~= before.push(sender));
                    },
                    _ => {},
                }
            }
        } else {
            assert(after.plans[id].participants =~= seq![sender]);
        }
    }
}

/// No step fills a plan beyond the number of members it was created for,
/// except an approval for a plan that is full already.
pub proof fn theorem_capacity_is_kept(
    s: LedgerView,
    now: u64,
    sender: Seq<char>,
    sent: u128,
    msg: ExecuteMsgView,
)
    requires
        s.well_formed(),
        plans_within_capacity(s),
        !approves_into_full_plan(s, msg),
    ensures
        plans_within_capacity(execute_step(s, now, sender, sent, msg).ledger),
{
    let after = execute_step(s, now, sender, sent, msg).ledger;
    assert forall|id: u64| #[trigger] after.plans.contains_key(id) implies after.plans[id].within_capacity() by {
        if s.plans.contains_key(id) {
            assert(s.plans[id].within_capacity());
            assert(s.plans[id].well_formed());
        }
    }
}

/// A contribution never brings the total paid for a cycle above the plan's
/// contribution plus the payer's debt as it stood before the payment; the
/// ledger records exactly that total, and the payer's debt as settled.
pub proof fn theorem_contribution_stays_within_target(
    s: LedgerView,
    now: u64,
    sender: Seq<char>,
    sent: u128,
    plan_id: u64,
    amount: u128,
)
    requires
        contribute_step(s, now, sender, sent, plan_id, amount).outcome is Ok,
    ensures
        contribution_settlement(s, now, sender, sent, plan_id, amount) matches Ok(settlement) && ({
            let after = contribute_step(s, now, sender, sent, plan_id, amount).ledger;
            &&& after.paid(plan_id, sender, settlement.cycle)
                == settlement.contributed_total_this_cycle
            &&& settlement.contributed_total_this_cycle == s.paid(
                plan_id,
                sender,
                settlement.cycle,
            ) + amount
            &&& settlement.contributed_total_this_cycle <= s.plans[plan_id].contribution_amount
                + settlement.debt_before
            &&& after.debt_of(plan_id, sender) == settlement.debt_after
        }),
{
}

/// A payment lowers the payer's debt by the part of the cycle's total that
/// lies above the plan's contribution, down to zero at most, and never
/// raises it; before the payment the debt grows by what the cycle before left
/// unpaid, and only where the payment is the first of a cycle after the
/// first.
pub proof fn theorem_debt_moves_by_the_rules(
    s: LedgerView,
    now: u64,
    sender: Seq<char>,
    sent: u128,
    plan_id: u64,
    amount: u128,
)
    requires
        contribute_step(s, now, sender, sent, plan_id, amount).outcome is Ok,
    ensures
        contribution_settlement(s, now, sender, sent, plan_id, amount) matches Ok(settlement) && ({
            let contribution = s.plans[plan_id].contribution_amount;
            let already = s.paid(plan_id, sender, settlement.cycle);
            let carried = rollover(
                contribution,
                settlement.cycle,
                already,
                s.paid_before(plan_id, sender, settlement.cycle),
            );
            &&& settlement.debt_before == s.debt_of(plan_id, sender) + carried
            &&& carried > 0 ==> settlement.cycle > 0 && already == 0
            &&& carried <= contribution
            &&& settlement.debt_after == debt_less(
                settlement.debt_before as int,
                excess(settlement.contributed_total_this_cycle as int, contribution),
            )
            &&& settlement.debt_after <= settlement.debt_before
            &&& settlement.debt_before - settlement.debt_after <= excess(
                settlement.contributed_total_this_cycle as int,
                contribution,
            )
        }),
{
}

/// Debt is carried over once for each cycle: after a payment of more than
/// nothing, a second payment by the same payer in the same cycle starts from
/// the debt that the first one left.
pub proof fn theorem_debt_is_carried_over_once(
    s: LedgerView,
    sender: Seq<char>,
    plan_id: u64,
    now1: u64,
    sent1: u128,
    amount1: u128,
    now2: u64,
    sent2: u128,
    amount2: u128,
)
    requires
        s.well_formed(),
        amount1 > 0,
        contribute_step(s, now1, sender, sent1, plan_id, amount1).outcome is Ok,
        contribute_step(
            contribute_step(s, now1, sender, sent1, plan_id, amount1).ledger,
            now2,
            sender,
            sent2,
            plan_id,
            amount2,
        ).outcome is Ok,
        contribution_settlement(s, now1, sender, sent1, plan_id, amount1)->Ok_0.cycle
            == contribution_settlement(
            contribute_step(s, now1, sender, sent1, plan_id, amount1).ledger,
            now2,
            sender,
            sent2,
            plan_id,
            amount2,
        )->Ok_0.cycle,
    ensures
        contribution_settlement(
            contribute_step(s, now1, sender, sent1, plan_id, amount1).ledger,
            now2,
            sender,
            sent2,
            plan_id,
            amount2,
        )->Ok_0.debt_before == contribution_settlement(
            s,
            now1,
            sender,
            sent1,
            plan_id,
            amount1,
        )->Ok_0.debt_after,
{
    let first = contribution_settlement(s, now1, sender, sent1, plan_id, amount1)->Ok_0;
    let s1 = contribute_step(s, now1, sender, sent1, plan_id, amount1).ledger;
    assert(s1.paid(plan_id, sender, first.cycle) == first.contributed_total_this_cycle);
    assert(first.contributed_total_this_cycle > 0);
    assert(s1.debt_of(plan_id, sender) == first.debt_after);
    assert(s1.plans[plan_id].contribution_amount == s.plans[plan_id].contribution_amount);
}

/// Only a contribution that is accepted changes a debt, and it changes only
/// the payer's debt in the plan paid into.
pub proof fn theorem_debt_changes_by_contribution_only(
    s: LedgerView,
    now: u64,
    sender: Seq<char>,
    sent: u128,
    msg: ExecuteMsgView,
    plan_id: u64,
    who: Seq<char>,
)
    ensures
        execute_step(s, now, sender, sent, msg).ledger.debt_of(plan_id, who) != s.debt_of(
            plan_id,
            who,
        ) ==> who == sender && msg == (ExecuteMsgView::Contribute {
            plan_id,
            amount: msg->Contribute_amount,
        }) && execute_step(s, now, sender, sent, msg).outcome is Ok,
{
}

/// A plan that was just created is stored with exactly the parameters that
/// were supplied: asking for it gives them back.
pub proof fn theorem_created_plan_is_stored(
    s: LedgerView,
    now: u64,
    sender: Seq<char>,
    name: Seq<char>,
    description: Seq<char>,
    total_participants: u32,
    contribution_amount: u128,
    frequency: Seq<char>,
    duration_months: u32,
    trust_score_required: u32,
    allow_partial: bool,
)
    requires
        create_plan_step(
            s,
            now,
            sender,
            name,
            description,
            total_participants,
            contribution_amount,
            frequency,
            duration_months,
            trust_score_required,
            allow_partial,
        ).outcome is Ok,
    ensures
        ({
            let step = create_plan_step(
                s,
                now,
                sender,
                name,
                description,
                total_participants,
                contribution_amount,
                frequency,
                duration_months,
                trust_score_required,
                allow_partial,
            );
            &&& step.outcome matches Ok(ResponseView::PlanCreated { plan_id })
            &&& frequency_named(frequency) matches Some(cadence)
            &&& plan_answer(step.ledger, plan_id) == Some(
                opened_plan(
                    plan_id,
                    sender,
                    name,
                    description,
                    total_participants,
                    contribution_amount,
                    cadence,
                    duration_months,
                    trust_score_required,
                    allow_partial,
                ),
            )
            &&& step.ledger.start_of(plan_id, sender) == Some(now)
            &&& step.ledger.plans_of(sender) == s.plans_of(sender).push(plan_id)
        }),
{
}

/// Casting the same approval twice is the same as casting it once: the second
/// vote changes neither the join requests nor any trust score, nor anything
/// else in the ledger.
pub proof fn theorem_repeated_approval_changes_nothing(
    s: LedgerView,
    now1: u64,
    now2: u64,
    voter: Seq<char>,
    plan_id: u64,
    requester: Seq<char>,
)
    ensures
        ({
            let once = approve_step(s, now1, voter, plan_id, requester).ledger;
            let twice = approve_step(once, now2, voter, plan_id, requester).ledger;
            &&& twice.join_requests == once.join_requests
            &&& twice.trust_scores == once.trust_scores
            &&& twice == once
        }),
{
    let once = approve_step(s, now1, voter, plan_id, requester).ledger;
    let key = (plan_id, requester);
    if s.plans.contains_key(plan_id) && s.join_requests.contains_key(key) {
        let (plan, request, verdict) = spec_cast_approval(
            s.plans[plan_id],
            s.join_requests[key],
            voter,
        );
        if verdict == Verdict::Recorded {
            assert(request.approvals.last() == voter);
            assert(request.has_voted(voter));
        }
    }
}


/// No step records a second vote of the same voter on a join request.
pub proof fn theorem_votes_stay_distinct(
    s: LedgerView,
    now: u64,
    sender: Seq<char>,
    sent: u128,
    msg: ExecuteMsgView,
)
    requires
        votes_distinct(s),
    ensures
        votes_distinct(execute_step(s, now, sender, sent, msg).ledger),
{
    let after = execute_step(s, now, sender, sent, msg).ledger;
    assert forall|key: (u64, Seq<char>)| #[trigger]
        after.join_requests.contains_key(key) implies (after.join_requests[key].approvals
        + after.join_requests[key].denials).no_duplicates() by {
        let votes = after.join_requests[key].approvals + after.join_requests[key].denials;
        if s.join_requests.contains_key(key) {
            let request = s.join_requests[key];
            let old_votes = request.approvals + request.denials;
            assert(old_votes.no_duplicates());
            if after.join_requests[key] != request {
                assert(!request.has_voted(sender));
                assert forall|i: int| 0 <= i < old_votes.len() implies old_votes[i] != sender by {
                    if i < request.approvals.len() {
                        assert(request.approvals[i] == old_votes[i]);
                    } else {
                        assert(request.denials[i - request.approvals.len()] == old_votes[i]);
                    }
                }
                assert(!old_votes.contains(sender));
                match msg {
                    ExecuteMsgView::ApproveJoinRequest { .. } => {
                        lemma_insert_keeps_distinct(
                            old_votes,
                            request.approvals.len() as int,
                            sender,
                        );
                        assert(votes =~= old_votes.insert(request.approvals.len() as int, sender));
                    },
                    ExecuteMsgView::DenyJoinRequest { .. } => {
                        lemma_insert_keeps_distinct(old_votes, old_votes.len() as int, sender);
                        assert(votes =~= old_votes.insert(old_votes.len() as int, sender));
                    },
                    _ => {},
                }
            }
        } else {
            assert(votes =~= Seq::<Seq<char>>::empty());
        }
    }
}

/// What is recorded as paid for a cycle never goes down.
pub proof fn theorem_contributions_never_decrease(
    s: LedgerView,
    now: u64,
    sender: Seq<char>,
    sent: u128,
    msg: ExecuteMsgView,
    plan_id: u64,
    who: Seq<char>,
    cycle: u64,
)
    ensures
        execute_step(s, now, sender, sent, msg).ledger.paid(plan_id, who, cycle) >= s.paid(
            plan_id,
            who,
            cycle,
        ),
{
}

/// Adding to the pot changes neither what a round comes to nor who is due.
pub proof fn lemma_credit_keeps_the_round(plan: PlanView, amount: u128)
    ensures
        total_required(plan_credited(plan, amount)) == total_required(plan),
        payout_due(plan_credited(plan, amount)) == payout_due(plan),
{
}

/// A plan is activated only by the direct join that fills it, and concluded
/// only by a payout.
pub proof fn theorem_activity_changes_by_the_rules(
    s: LedgerView,
    now: u64,
    sender: Seq<char>,
    sent: u128,
    msg: ExecuteMsgView,
    plan_id: u64,
)
    requires
        ids_allocated(s),
        s.plans.contains_key(plan_id),
    ensures
        ({
            let step = execute_step(s, now, sender, sent, msg);
            let before = s.plans[plan_id];
            let after = step.ledger.plans[plan_id];
            &&& step.ledger.plans.contains_key(plan_id)
            &&& !before.is_active && after.is_active ==> msg == (ExecuteMsgView::JoinPlan {
                plan_id,
            }) && after.participants.len() == after.total_participants
            &&& before.is_active && !after.is_active ==> paid_out(step.outcome) > 0 || (
            total_required(before) == 0 && step.outcome is Ok && msg is Contribute)
        }),
{
    if msg is Contribute {
        lemma_credit_keeps_the_round(s.plans[plan_id], msg->Contribute_amount);
    }
}

/// No step loses or makes funds.  An accepted contribution changes the pot of
/// the plan paid into by the amount paid, less the payout that it triggered;
/// no other step, and no step on another plan, changes a pot.  A payout is one
/// full round of the plan, and goes to the member at the payout cursor.
pub proof fn theorem_funds_are_conserved(
    s: LedgerView,
    now: u64,
    sender: Seq<char>,
    sent: u128,
    msg: ExecuteMsgView,
    plan_id: u64,
)
    requires
        ids_allocated(s),
    ensures
        ({
            let step = execute_step(s, now, sender, sent, msg);
            if contributes_to(msg, plan_id) && step.outcome is Ok {
                &&& pot(step.ledger, plan_id) == pot(s, plan_id) + msg->Contribute_amount
                    - paid_out(step.outcome)
                &&& step.outcome matches Ok(
                    ResponseView::Contributed { auto_payout: Some(payout), .. },
                ) ==> payout == payout_due(s.plans[plan_id])
            } else {
                pot(step.ledger, plan_id) == pot(s, plan_id)
            }
        }),
{
    if contributes_to(msg, plan_id) && s.plans.contains_key(plan_id) {
        lemma_credit_keeps_the_round(s.plans[plan_id], msg->Contribute_amount);
    }
}


/// One request, with the moment at which it is made, its sender, and what was
/// transferred with it in the settlement unit.
pub struct Request {
    pub now: u64,
    pub sender: Seq<char>,
    pub sent: u128,
    pub msg: ExecuteMsgView,
}

/// The step of a request.
pub open spec fn step_of(s: LedgerView, request: Request) -> Step {
    execute_step(s, request.now, request.sender, request.sent, request.msg)
}

/// The ledger after the requests were made one after the other, starting
/// from `s`.
pub open spec fn run(s: LedgerView, requests: Seq<Request>) -> LedgerView
    decreases requests.len(),
{
    if requests.len() == 0 {
        s
    } else {
        step_of(run(s, requests.drop_last()), requests.last()).ledger
    }
}

/// The identities of the plans that the requests created, in the order of
/// their creation.
pub open spec fn created_ids(s: LedgerView, requests: Seq<Request>) -> Seq<u64>
    decreases requests.len(),
{
    if requests.len() == 0 {
        Seq::empty()
    } else {
        let earlier = created_ids(s, requests.drop_last());
        match step_of(run(s, requests.drop_last()), requests.last()).outcome {
            Ok(ResponseView::PlanCreated { plan_id }) => earlier.push(plan_id),
            _ => earlier,
        }
    }
}

/// What holds of every ledger that requests can lead to.
pub open spec fn sound(s: LedgerView) -> bool {
    &&& s.well_formed()
    &&& ids_allocated(s)
    &&& votes_distinct(s)
}

/// Whatever requests are made of a ledger that started empty, in whatever
/// order: the ledger stays sound, the plans created got the identities 1, 2,
/// 3 and so on, in this order, and the count of plans is the number of plans
/// created.
pub proof fn theorem_every_run_is_sound(requests: Seq<Request>)
    ensures
        sound(run(LedgerView::empty(), requests)),
        run(LedgerView::empty(), requests).plan_count == created_ids(
            LedgerView::empty(),
            requests,
        ).len(),
        forall|i: int|
            0 <= i < created_ids(LedgerView::empty(), requests).len() ==> #[trigger] created_ids(
                LedgerView::empty(),
                requests,
            )[i] == i + 1,
    decreases requests.len(),
{
    if requests.len() > 0 {
        let before = run(LedgerView::empty(), requests.drop_last());
        let last = requests.last();
        theorem_every_run_is_sound(requests.drop_last());
        theorem_well_formedness_is_kept(before, last.now, last.sender, last.sent, last.msg);
        theorem_plan_ids_are_fresh(before, last.now, last.sender, last.sent, last.msg);
        theorem_votes_stay_distinct(before, last.now, last.sender, last.sent, last.msg);
        theorem_plan_ids_count_up(before, last.now, last.sender, last.sent, last.msg);
    }
}

/// No step removes a plan or a member: every member of a plan before a step
/// is a member of it after the step.
pub proof fn theorem_members_are_never_removed(
    s: LedgerView,
    now: u64,
    sender: Seq<char>,
    sent: u128,
    msg: ExecuteMsgView,
    plan_id: u64,
    who: Seq<char>,
)
    requires
        s.well_formed(),
        ids_allocated(s),
        s.plans.contains_key(plan_id),
        s.plans[plan_id].has_member(who),
    ensures
        execute_step(s, now, sender, sent, msg).ledger.plans.contains_key(plan_id),
        execute_step(s, now, sender, sent, msg).ledger.plans[plan_id].has_member(who),
{
    let before = s.plans[plan_id].participants;
    let after = execute_step(s, now, sender, sent, msg).ledger.plans[plan_id].participants;
    let i = choose|i: int| 0 <= i < before.len() && before[i] == who;
    assert(s.plans[plan_id].well_formed());
    if after != before {
        match msg {
            ExecuteMsgView::ApproveJoinRequest { plan_id: p, requester } => {
                let at = s.plans[plan_id].payout_index as int;
                assert(after == before.insert(at, requester));
                if i < at {
                    assert(after[i] == who);
                } else {
                    assert(after[i + 1] == who);
                }
            },
            ExecuteMsgView::JoinPlan { plan_id: p } => {
                assert(after == before.push(sender));
                assert(after[i] == who);
            },
            _ => {},
        }
    }
}

} // verus!
