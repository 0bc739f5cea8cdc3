//! The questions that the engine answers.  None of them changes the ledger.
use vstd::prelude::*;
use crate::accounting::{
    cycle_of, participant_status, personal_cycle, spec_participant_status, start_or_epoch,
};
use crate::error::{ContractError, ErrorView};
use crate::ledger::{Ledger, LedgerView};
use crate::msg::{
    plan_answers, requests, Env, JoinRequestsResponse, ParticipantCycleStatusResponse,
    PlanResponse, QueryMsg, QueryMsgView, QueryResponse, QueryResponseView,
};
use crate::order::{
    is_text_before, lemma_text_before_total, lemma_text_before_transitive, text_before,
};
use crate::state::{JoinRequest, JoinRequestView, Plan, PlanView};
use crate::trust::trust_or_default;

verus! {

/// The plan stored under `plan_id`, if there is one.
pub open spec fn plan_answer(s: LedgerView, plan_id: u64) -> Option<PlanView> {
    if s.plans.contains_key(plan_id) {
        Some(s.plans[plan_id])
    } else {
        None
    }
}

/// Answers with the plan stored under `plan_id`, if there is one.
pub fn query_plan(ledger: &Ledger, plan_id: u64) -> (r: PlanResponse)
    requires
        ledger.wf(),
    ensures
        r@ == plan_answer(ledger@, plan_id),
{
    match ledger.plan(plan_id) {
        Some(plan) => PlanResponse { plan: Some(plan.clone()) },
        None => PlanResponse { plan: None },
    }
}

/// The views of a list of plans that were looked up: each is the plan found,
/// or nothing.
pub open spec fn lookups(loaded: Seq<Option<Plan>>) -> Seq<Option<PlanView>> {
    loaded.map_values(
        |found: Option<Plan>|
            match found {
                Some(plan) => Some(plan@),
                None => None,
            },
    )
}

/// The plans that were found among those looked up, in their order.
pub open spec fn present(loaded: Seq<Option<PlanView>>) -> Seq<Option<PlanView>>
    decreases loaded.len(),
{
    if loaded.len() == 0 {
        Seq::empty()
    } else if loaded.last() is Some {
        present(loaded.drop_last()).push(loaded.last())
    } else {
        present(loaded.drop_last())
    }
}

/// The plans stored under the identities `ids`, in the order of `ids`; an
/// identity under which no plan is stored is passed over.
pub open spec fn plans_listed(s: LedgerView, ids: Seq<u64>) -> Seq<Option<PlanView>> {
    present(ids.map_values(|id: u64| plan_answer(s, id)))
}

/// Answers with the plans that were found among those looked up, in their
/// order.
pub fn present_plans(loaded: Vec<Option<Plan>>) -> (r: Vec<PlanResponse>)
    ensures
        plan_answers(r@) == present(lookups(loaded@)),
{
    let mut plans: Vec<PlanResponse> = Vec::new();
    let mut i: usize = 0;
    proof {
        assert(plan_answers(plans@) =~= Seq::<Option<PlanView>>::empty());
    }
    while i < loaded.len()
        invariant
            i <= loaded@.len(),
            plan_answers(plans@) == present(lookups(loaded@).take(i as int)),
        decreases loaded@.len() - i,
    {
        let ghost before = plans@;
        proof {
            assert(lookups(loaded@).take(i + 1).drop_last() =~= lookups(loaded@).take(i as int));
            assert(lookups(loaded@).take(i + 1).last() == lookups(loaded@)[i as int]);
        }
        match &loaded[i] {
            Some(plan) => {
                let answer = PlanResponse { plan: Some(plan.clone()) };
                plans.push(answer);
                proof {
                    assert(plan_answers(plans@) =~= plan_answers(before).push(answer@));
                }
            },
            None => {},
        }
        i += 1;
    }
    proof {
        assert(lookups(loaded@).take(loaded@.len() as int) =~= lookups(loaded@));
    }
    plans
}

/// Answers with the plans that `creator` opened, oldest first.
pub fn query_plans_by_creator(ledger: &Ledger, creator: &String) -> (r: Vec<PlanResponse>)
    requires
        ledger.wf(),
    ensures
        plan_answers(r@) == plans_listed(ledger@, ledger@.plans_of(creator@)),
{
    let mut loaded: Vec<Option<Plan>> = Vec::new();
    let ghost looked_up = |id: u64| plan_answer(ledger@, id);
    match ledger.creator_plans(creator) {
        Some(ids) => {
            let mut i: usize = 0;
            proof {
                assert(lookups(loaded@) =~= ids@.take(0).map_values(looked_up));
            }
            while i < ids.len()
                invariant
                    ledger.wf(),
                    i <= ids@.len(),
                    looked_up == |id: u64| plan_answer(ledger@, id),
                    lookups(loaded@) == ids@.take(i as int).map_values(looked_up),
                decreases ids@.len() - i,
            {
                let ghost before = loaded@;
                let found: Option<Plan> = match ledger.plan(ids[i]) {
                    Some(plan) => Some(plan.clone()),
                    None => None,
                };
                loaded.push(found);
                proof {
                    assert(lookups(loaded@) =~= lookups(before).push(looked_up(ids@[i as int])));
                    assert(ids@.take(i + 1).map_values(looked_up) =~= ids@.take(
                        i as int,
                    ).map_values(looked_up).push(looked_up(ids@[i as int])));
                }
                i += 1;
            }
            proof {
                assert(ids@.take(ids@.len() as int) =~= ids@);
            }
        },
        None => {
            proof {
                assert(lookups(loaded@) =~= Seq::<u64>::empty().map_values(looked_up));
            }
        },
    }
    present_plans(loaded)
}

/// Answers with the number of plans created so far.
pub fn query_plan_count(ledger: &Ledger) -> (count: u64)
    ensures
        count == ledger@.plan_count,
{
    ledger.plan_count()
}

/// The trust score of `user`: the recorded one, or the default score of an
/// identity not seen before.
pub fn query_trust_score(ledger: &Ledger, user: &String) -> (score: u64)
    requires
        ledger.wf(),
    ensures
        score == ledger@.trust_of(user@),
{
    trust_or_default(ledger.trust_score(user))
}

/// Whether the requests of `list` stand in the strict order of their
/// requesters.
pub open spec fn sorted_by_requester(list: Seq<JoinRequestView>) -> bool {
    forall|i: int, j: int|
        0 <= i < j < list.len() ==> text_before(
            (#[trigger] list[i]).requester,
            (#[trigger] list[j]).requester,
        )
}

/// Whether `list` lists the pending requests to join plan `plan_id`: each of
/// them, as the ledger holds it, once, in the order of the requesters.
pub open spec fn lists_requests_of(s: LedgerView, plan_id: u64, list: Seq<JoinRequestView>) -> bool {
    &&& forall|i: int|
        0 <= i < list.len() ==> s.join_requests.contains_key((plan_id, (#[trigger] list[i]).requester))
            && list[i] == s.join_requests[(plan_id, list[i].requester)]
    &&& sorted_by_requester(list)
    &&& forall|requester: Seq<char>| #[trigger]
        s.join_requests.contains_key((plan_id, requester)) ==> exists|i: int|
            0 <= i < list.len() && (#[trigger] list[i]).requester == requester
}

/// Puts `request` into a list that is in the order of the requesters, at the
/// place that keeps the order.
fn insert_by_requester(found: &mut Vec<JoinRequest>, request: JoinRequest)
    requires
        sorted_by_requester(requests(old(found)@)),
        forall|k: int|
            0 <= k < old(found)@.len() ==> (#[trigger] old(found)@[k])@.requester
                != request@.requester,
    ensures
        sorted_by_requester(requests(final(found)@)),
        forall|v: JoinRequestView|
            requests(final(found)@).contains(v) <==> (requests(old(found)@).contains(v) || v
                == request@),
{
    let ghost before = requests(found@);
    let ghost x = request@;
    let mut at: usize = 0;
    while at < found.len() && is_text_before(&found[at].requester, &request.requester)
        invariant
            at <= found@.len(),
            before == requests(found@),
            x == request@,
            forall|k: int| 0 <= k < at ==> text_before((#[trigger] before[k]).requester, x.requester),
        decreases found@.len() - at,
    {
        assert(before[at as int] == found@[at as int]@);
        at += 1;
    }
    proof {
        assert forall|k: int| at <= k < before.len() implies text_before(
            x.requester,
            (#[trigger] before[k]).requester,
        ) by {
            let here = before[at as int].requester;
            assert(before[at as int] == found@[at as int]@);
            assert(!text_before(here, x.requester));
            assert(here != x.requester);
            lemma_text_before_total(x.requester, here);
            if at < k {
                lemma_text_before_transitive(x.requester, here, before[k].requester);
            }
        }
    }
    found.insert(at, request);
    proof {
        let after = requests(found@);
        assert(after =~= before.insert(at as int, x));
        assert forall|i: int, j: int| 0 <= i < j < after.len() implies text_before(
            (#[trigger] after[i]).requester,
            (#[trigger] after[j]).requester,
        ) by {
            if j < at {
                assert(after[i] == before[i] && after[j] == before[j]);
            } else if j == at {
                assert(after[i] == before[i]);
            } else if i < at {
                assert(after[i] == before[i] && after[j] == before[j - 1]);
            } else if i == at {
                assert(after[j] == before[j - 1]);
            } else {
                assert(after[i] == before[i - 1] && after[j] == before[j - 1]);
            }
        }
        assert forall|v: JoinRequestView| after.contains(v) <==> (before.contains(v) || v
            == x) by {
            if after.contains(v) {
                let k = choose|k: int| 0 <= k < after.len() && after[k] == v;
                if k < at {
                    assert(before[k] == v);
                } else if k > at {
                    assert(before[k - 1] == v);
                }
            }
            if before.contains(v) {
                let k = choose|k: int| 0 <= k < before.len() && before[k] == v;
                if k < at {
                    assert(after[k] == v);
                } else {
                    assert(after[k + 1] == v);
                }
            }
            if v == x {
                assert(after[at as int] == v);
            }
        }
    }
}

/// Answers with the pending requests to join plan `plan_id`, in the order of
/// the requesters.
pub fn query_join_requests(ledger: &Ledger, plan_id: u64) -> (r: JoinRequestsResponse)
    requires
        ledger.wf(),
    ensures
        lists_requests_of(ledger@, plan_id, requests(r.requests@)),
{
    let mut found: Vec<JoinRequest> = Vec::new();
    let n = ledger.join_request_count();
    let ghost keys = ledger.join_request_keys();
    let ghost s = ledger@;
    proof {
        ledger.lemma_join_request_keys();
        assert(requests(found@) =~= Seq::<JoinRequestView>::empty());
    }
    let mut i: usize = 0;
    while i < n
        invariant
            ledger.wf(),
            s == ledger@,
            keys == ledger.join_request_keys(),
            n == keys.len(),
            i <= n,
            keys.no_duplicates(),
            forall|key: (u64, Seq<char>)| keys.contains(key) <==> s.join_requests.contains_key(key),
            sorted_by_requester(requests(found@)),
            forall|v: JoinRequestView| #[trigger]
                requests(found@).contains(v) ==> exists|j: int|
                    0 <= j < i && #[trigger] keys[j] == (plan_id, v.requester) && v
                        == s.join_requests[keys[j]],
            forall|j: int|
                0 <= j < i && (#[trigger] keys[j]).0 == plan_id ==> requests(found@).contains(
                    s.join_requests[keys[j]],
                ),
        decreases n - i,
    {
        let request = ledger.join_request_at(i);
        let ghost key = keys[i as int];
        let ghost before = requests(found@);
        assert(keys.contains(key));
        assert(request@ == s.join_requests[key]);
        assert(request@.plan_id == key.0 && request@.requester == key.1);
        if request.plan_id == plan_id {
            proof {
                assert forall|k: int| 0 <= k < found@.len() implies (#[trigger] found@[k])@.requester
                    != request@.requester by {
                    let v = before[k];
                    assert(before.contains(v));
                    let j = choose|j: int|
                        0 <= j < i && #[trigger] keys[j] == (plan_id, v.requester) && v
                            == s.join_requests[keys[j]];
                    assert(keys[j] != keys[i as int]);
                }
            }
            insert_by_requester(&mut found, request.clone());
        }
        i += 1;
    }
    proof {
        let list = requests(found@);
        assert forall|k: int| 0 <= k < list.len() implies s.join_requests.contains_key(
            (plan_id, (#[trigger] list[k]).requester),
        ) && list[k] == s.join_requests[(plan_id, list[k].requester)] by {
            let v = list[k];
            assert(list.contains(v));
            let j = choose|j: int|
                0 <= j < n && #[trigger] keys[j] == (plan_id, v.requester) && v
                    == s.join_requests[keys[j]];
            assert(keys.contains(keys[j]));
        }
        assert forall|requester: Seq<char>| #[trigger]
            s.join_requests.contains_key((plan_id, requester)) implies exists|k: int|
            0 <= k < list.len() && (#[trigger] list[k]).requester == requester by {
            let key = (plan_id, requester);
            assert(keys.contains(key));
            let j = choose|j: int| 0 <= j < keys.len() && keys[j] == key;
            assert(keys[j].0 == plan_id);
            let v = s.join_requests[keys[j]];
            assert(list.contains(v));
            let k = choose|k: int| 0 <= k < list.len() && list[k] == v;
            assert(list[k].requester == requester);
        }
    }
    JoinRequestsResponse { requests: found }
}

/// Where `participant` stands in plan `plan_id` at time `now`.
///
/// The personal cycle counts from the recorded start time, or from time zero
/// where none is recorded.  What is required is the plan's contribution; the
/// debt is reported beside it.
pub open spec fn cycle_status(
    s: LedgerView,
    now: u64,
    plan_id: u64,
    participant: Seq<char>,
) -> ParticipantCycleStatusResponse
    recommends
        s.plans.contains_key(plan_id),
{
    let plan = s.plans[plan_id];
    let cycle = personal_cycle(
        start_or_epoch(s.start_of(plan_id, participant)),
        now,
        plan.frequency,
    );
    spec_participant_status(
        plan.contribution_amount,
        cycle,
        s.paid(plan_id, participant, cycle),
        s.debt_of(plan_id, participant),
    )
}

/// Answers where `participant` stands in plan `plan_id` now; fails if there
/// is no such plan.
pub fn query_participant_cycle_status(
    ledger: &Ledger,
    env: &Env,
    plan_id: u64,
    participant: &String,
) -> (r: Result<ParticipantCycleStatusResponse, ContractError>)
    requires
        ledger.wf(),
    ensures
        match r {
            Ok(status) => ledger@.plans.contains_key(plan_id) && status == cycle_status(
                ledger@,
                env.time_seconds,
                plan_id,
                participant@,
            ),
            Err(e) => !ledger@.plans.contains_key(plan_id) && e@ == ErrorView::PlanNotFound(
                plan_id,
            ),
        },
{
    let plan: &Plan = match ledger.plan(plan_id) {
        Some(plan) => plan,
        None => {
            return Err(ContractError::PlanNotFound(plan_id));
        },
    };
    let cycle = cycle_of(plan, ledger.participant_start(plan_id, participant), env);
    Ok(
        participant_status(
            plan,
            cycle,
            ledger.contribution(plan_id, participant, cycle),
            ledger.debt(plan_id, participant),
        ),
    )
}

/// Whether `answer` is the answer to the question `msg` asked of the ledger
/// `s` at time `now`.
pub open spec fn answers(
    s: LedgerView,
    now: u64,
    msg: QueryMsgView,
    answer: Result<QueryResponseView, ErrorView>,
) -> bool {
    match msg {
        QueryMsgView::GetPlan { plan_id } => answer == Ok::<QueryResponseView, ErrorView>(
            QueryResponseView::Plan(plan_answer(s, plan_id)),
        ),
        QueryMsgView::GetPlansByCreator { creator } => answer == Ok::<
            QueryResponseView,
            ErrorView,
        >(QueryResponseView::Plans(plans_listed(s, s.plans_of(creator)))),
        QueryMsgView::GetPlanCount => answer == Ok::<QueryResponseView, ErrorView>(
            QueryResponseView::PlanCount(s.plan_count),
        ),
        QueryMsgView::GetJoinRequests { plan_id } => answer matches Ok(
            QueryResponseView::JoinRequests(list),
        ) && lists_requests_of(s, plan_id, list),
        QueryMsgView::GetParticipantCycleStatus { plan_id, participant } => answer == (if s.plans.contains_key(
            plan_id,
        ) {
            Ok::<QueryResponseView, ErrorView>(
                QueryResponseView::CycleStatus(cycle_status(s, now, plan_id, participant)),
            )
        } else {
            Err::<QueryResponseView, ErrorView>(ErrorView::PlanNotFound(plan_id))
        }),
        QueryMsgView::GetTrustScore { user } => answer == Ok::<QueryResponseView, ErrorView>(
            QueryResponseView::TrustScore(s.trust_of(user)),
        ),
    }
}

/// The answer with each text replaced by its characters.
pub open spec fn query_answer_view(r: Result<QueryResponse, ContractError>) -> Result<
    QueryResponseView,
    ErrorView,
> {
    match r {
        Ok(response) => Ok(response@),
        Err(e) => Err(e@),
    }
}

/// Answers a question about the ledger.
pub fn query(ledger: &Ledger, env: &Env, msg: QueryMsg) -> (r: Result<QueryResponse, ContractError>)
    requires
        ledger.wf(),
    ensures
        answers(ledger@, env.time_seconds, msg@, query_answer_view(r)),
{
    match msg {
        QueryMsg::GetPlan { plan_id } => Ok(QueryResponse::Plan(query_plan(ledger, plan_id))),
        QueryMsg::GetPlansByCreator { creator } => Ok(
            QueryResponse::Plans(query_plans_by_creator(ledger, &creator)),
        ),
        QueryMsg::GetPlanCount {  } => Ok(QueryResponse::PlanCount(query_plan_count(ledger))),
        QueryMsg::GetJoinRequests { plan_id } => Ok(
            QueryResponse::JoinRequests(query_join_requests(ledger, plan_id)),
        ),
        QueryMsg::GetParticipantCycleStatus { plan_id, participant } => {
            match query_participant_cycle_status(ledger, env, plan_id, &participant) {
                Ok(status) => Ok(QueryResponse::CycleStatus(status)),
                Err(e) => Err(e),
            }
        },
        QueryMsg::GetTrustScore { user } => Ok(
            QueryResponse::TrustScore(query_trust_score(ledger, &user)),
        ),
    }
}

} // verus!
