//! Membership: joining a plan directly, and admission by the members' vote.
use vstd::prelude::*;
use crate::error::{ContractError, ErrorView};
use crate::state::{texts, JoinRequest, JoinRequestView, Plan, PlanView};

verus! {

/// What a vote did to a join request.
#[derive(Clone, Copy, Debug, PartialEq, Eq, Structural)]
pub enum Verdict {
    /// The voter had voted on the request before: nothing changed.
    AlreadyVoted,
    /// The vote was recorded and the request stays pending.
    Recorded,
    /// The approvals reached the majority: the requester is now a member and
    /// the request is closed.
    Admitted,
    /// The denials reached the majority: the request is closed.
    Rejected,
}

/// Whether `approvals` votes admit a requester to a plan of `members`
/// members: at least half of them, a tie included.
pub open spec fn approval_carries(approvals: nat, members: nat) -> bool {
    2 * approvals >= members
}

/// Whether `denials` votes reject a requester: more than half of the members.
pub open spec fn denial_carries(denials: nat, members: nat) -> bool {
    2 * denials > members
}

/// The plan with `requester` admitted: the new member takes the place at the
/// payout cursor, and the members from there on move back by one turn.
pub open spec fn plan_with_admitted(plan: PlanView, requester: Seq<char>) -> PlanView {
    PlanView {
        participants: plan.participants.insert(plan.payout_index as int, requester),
        ..plan
    }
}

/// The request with one more approval.
pub open spec fn with_approval(request: JoinRequestView, voter: Seq<char>) -> JoinRequestView {
    JoinRequestView { approvals: request.approvals.push(voter), ..request }
}

/// The request with one more denial.
pub open spec fn with_denial(request: JoinRequestView, voter: Seq<char>) -> JoinRequestView {
    JoinRequestView { denials: request.denials.push(voter), ..request }
}

/// What an approval by `voter` does: the plan and the request after it, and
/// the verdict.  A voter who has voted before changes nothing.  Otherwise the
/// approval is recorded, and the requester is admitted as soon as the
/// approvals carry against the members the plan had before the admission.
pub open spec fn spec_cast_approval(
    plan: PlanView,
    request: JoinRequestView,
    voter: Seq<char>,
) -> (PlanView, JoinRequestView, Verdict) {
    if request.has_voted(voter) {
        (plan, request, Verdict::AlreadyVoted)
    } else if approval_carries(request.approvals.len() + 1, plan.participants.len()) {
        (
            plan_with_admitted(plan, request.requester),
            with_approval(request, voter),
            Verdict::Admitted,
        )
    } else {
        (plan, with_approval(request, voter), Verdict::Recorded)
    }
}

/// What a denial by `voter` does: the request after it, and the verdict.  A
/// voter who has voted before changes nothing.  Otherwise the denial is
/// recorded, and the request is rejected as soon as the denials carry.
pub open spec fn spec_cast_denial(
    plan: PlanView,
    request: JoinRequestView,
    voter: Seq<char>,
) -> (JoinRequestView, Verdict) {
    if request.has_voted(voter) {
        (request, Verdict::AlreadyVoted)
    } else if denial_carries(request.denials.len() + 1, plan.participants.len()) {
        (with_denial(request, voter), Verdict::Rejected)
    } else {
        (with_denial(request, voter), Verdict::Recorded)
    }
}

/// The request that `requester` files to join plan `plan_id`: no vote is cast
/// on it yet.
pub open spec fn fresh_request(plan_id: u64, requester: Seq<char>) -> JoinRequestView {
    JoinRequestView {
        plan_id,
        requester,
        approvals: Seq::<Seq<char>>::empty(),
        denials: Seq::<Seq<char>>::empty(),
    }
}

/// Files the request of `requester` to join plan `plan_id`, unless one of the
/// same requester for the same plan is pending.
pub fn new_request(already_pending: bool, plan_id: u64, requester: String) -> (r: Result<
    JoinRequest,
    ContractError,
>)
    ensures
        already_pending ==> r is Err && r->Err_0@ == ErrorView::AlreadyRequested,
        !already_pending ==> r is Ok && r->Ok_0@ == fresh_request(plan_id, requester@),
{
    if already_pending {
        Err(ContractError::AlreadyRequested {  })
    } else {
        Ok(JoinRequest::new(plan_id, requester))
    }
}

/// Takes the pending request that a lookup found, or fails because there is
/// none to vote on.
pub fn pending_request(found: Option<JoinRequest>) -> (r: Result<JoinRequest, ContractError>)
    ensures
        match found {
            Some(request) => r is Ok && r->Ok_0@ == request@,
            None => r is Err && r->Err_0@ == ErrorView::NotFound,
        },
{
    match found {
        Some(request) => Ok(request),
        None => Err(ContractError::NotFound),
    }
}

/// Records the approval of `voter` on `request`, and admits the requester to
/// `plan` if the approvals now carry.
pub fn cast_approval(plan: &mut Plan, request: &mut JoinRequest, voter: &String) -> (verdict:
    Verdict)
    requires
        old(plan)@.payout_index <= old(plan)@.participants.len(),
    ensures
        (final(plan)@, final(request)@, verdict) == spec_cast_approval(
            old(plan)@,
            old(request)@,
            voter@,
        ),
        old(plan)@.well_formed() ==> final(plan)@.well_formed(),
{
    if request.has_voted(voter) {
        return Verdict::AlreadyVoted;
    }
    let ghost plan_before = plan@;
    let ghost request_before = request@;
    request.approvals.push(voter.clone());
    proof {
        assert(texts(request.approvals@) =~= request_before.approvals.push(voter@));
    }
    if 2 * (request.approvals.len() as u128) >= plan.participants.len() as u128 {
        let at: usize = plan.payout_index as usize;
        plan.participants.insert(at, request.requester.clone());
        proof {
            assert(texts(plan.participants@) =~= plan_before.participants.insert(
                at as int,
                request_before.requester,
            ));
        }
        Verdict::Admitted
    } else {
        Verdict::Recorded
    }
}

/// Records the denial of `voter` on `request`, and tells whether the denials
/// now carry.
pub fn cast_denial(plan: &Plan, request: &mut JoinRequest, voter: &String) -> (verdict: Verdict)
    ensures
        (final(request)@, verdict) == spec_cast_denial(plan@, old(request)@, voter@),
{
    if request.has_voted(voter) {
        return Verdict::AlreadyVoted;
    }
    let ghost request_before = request@;
    request.denials.push(voter.clone());
    proof {
        assert(texts(request.denials@) =~= request_before.denials.push(voter@));
    }
    if 2 * (request.denials.len() as u128) > plan.participants.len() as u128 {
        Verdict::Rejected
    } else {
        Verdict::Recorded
    }
}

/// The plan after `who`, whose trust score is `trust`, joined it directly, or
/// the reason for which `who` cannot.  Joining directly is open only while
/// the plan is inactive; the member that fills the plan activates it.
pub open spec fn spec_join(plan: PlanView, who: Seq<char>, trust: u64) -> Result<
    PlanView,
    ErrorView,
> {
    if plan.is_active {
        Err(ErrorView::PlanActive)
    } else if plan.participants.len() >= plan.total_participants {
        Err(ErrorView::PlanFull)
    } else if plan.has_member(who) {
        Err(ErrorView::AlreadyParticipant)
    } else if trust < plan.trust_score_required {
        Err(ErrorView::InsufficientTrustScore)
    } else {
        Ok(
            PlanView {
                participants: plan.participants.push(who),
                is_active: plan.participants.len() + 1 == plan.total_participants,
                ..plan
            },
        )
    }
}

/// Lets `who`, whose trust score is `trust`, join the plan directly.  On
/// failure the plan is left as it was.
pub fn join(plan: &mut Plan, who: &String, trust: u64) -> (r: Result<(), ContractError>)
    ensures
        match spec_join(old(plan)@, who@, trust) {
            Ok(after) => r is Ok && final(plan)@ == after,
            Err(e) => r is Err && r->Err_0@ == e && final(plan)@ == old(plan)@,
        },
        old(plan)@.well_formed() ==> final(plan)@.well_formed(),
{
    if plan.is_active {
        return Err(ContractError::PlanActive {  });
    }
    if plan.participants.len() as u128 >= plan.total_participants as u128 {
        return Err(ContractError::PlanFull {  });
    }
    if plan.is_member(who) {
        return Err(ContractError::AlreadyParticipant {  });
    }
    if trust < plan.trust_score_required as u64 {
        return Err(ContractError::InsufficientTrustScore {  });
    }
    let ghost before = plan@;
    plan.participants.push(who.clone());
    proof {
        assert(texts(plan.participants@) =~= before.participants.push(who@));
    }
    if plan.participants.len() as u128 == plan.total_participants as u128 {
        plan.is_active = true;
    }
    Ok(())
}

} // verus!
