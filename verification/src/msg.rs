//! The requests that the engine answers, and its answers.
use vstd::prelude::*;
use crate::state::{JoinRequest, JoinRequestView, Plan, PlanView};

verus! {

/// The unit in which contributions are paid and payouts are made.
pub open spec fn spec_settlement_denom() -> Seq<char> {
    "uxion"@
}

/// The unit in which contributions are paid and payouts are made.
pub fn settlement_denom() -> (denom: &'static str)
    ensures
        denom@ == spec_settlement_denom(),
{
    "uxion"
}

/// What the host tells the engine about the moment of a request.
#[derive(Clone, Copy, Debug, PartialEq, Eq)]
pub struct Env {
    /// The current time, in seconds.
    pub time_seconds: u64,
}

/// An amount of one unit of value.
#[derive(Debug, PartialEq, Eq)]
pub struct Coin {
    pub denom: String,
    pub amount: u128,
}

/// The mathematical content of a [`Coin`].
pub struct CoinView {
    pub denom: Seq<char>,
    pub amount: u128,
}

impl View for Coin {
    type V = CoinView;

    open spec fn view(&self) -> CoinView {
        CoinView { denom: self.denom@, amount: self.amount }
    }
}

impl Clone for Coin {
    fn clone(&self) -> (copy: Self)
        ensures
            copy@ == self@,
    {
        Coin { denom: self.denom.clone(), amount: self.amount }
    }
}

/// The views of a list of coins.
pub open spec fn coins(funds: Seq<Coin>) -> Seq<CoinView> {
    funds.map_values(|c: Coin| c@)
}

/// A copy of a list of coins.
pub fn copy_coins(funds: &Vec<Coin>) -> (copy: Vec<Coin>)
    ensures
        coins(copy@) == coins(funds@),
{
    let mut copy: Vec<Coin> = Vec::new();
    let mut i: usize = 0;
    while i < funds.len()
        invariant
            i <= funds@.len(),
            coins(copy@) == coins(funds@).take(i as int),
        decreases funds@.len() - i,
    {
        let ghost before = copy@;
        let coin = funds[i].clone();
        copy.push(coin);
        proof {
            assert(coins(copy@) =~= coins(before).push(coin@));
            assert(coins(funds@).take(i as int).push(funds@[i as int]@) =~= coins(funds@).take(
                i + 1,
            ));
        }
        i += 1;
    }
    proof {
        assert(coins(funds@).take(funds@.len() as int) =~= coins(funds@));
    }
    copy
}

/// Who makes a request, and the funds that came with it.
#[derive(Debug, PartialEq, Eq)]
pub struct MessageInfo {
    pub sender: String,
    pub funds: Vec<Coin>,
}

impl Clone for MessageInfo {
    fn clone(&self) -> (copy: Self)
        ensures
            copy.sender@ == self.sender@,
            coins(copy.funds@) == coins(self.funds@),
    {
        MessageInfo { sender: self.sender.clone(), funds: copy_coins(&self.funds) }
    }
}

/// The amount of the first coin of the settlement unit among `funds`, or zero
/// where there is none.
pub open spec fn spec_funds_sent(funds: Seq<CoinView>) -> u128
    decreases funds.len(),
{
    if funds.len() == 0 {
        0
    } else if funds[0].denom == spec_settlement_denom() {
        funds[0].amount
    } else {
        spec_funds_sent(funds.drop_first())
    }
}

/// The amount that came with a request in the settlement unit: that of the
/// first such coin, or zero where there is none.
pub fn funds_sent(funds: &Vec<Coin>) -> (sent: u128)
    ensures
        sent == spec_funds_sent(coins(funds@)),
{
    let denom = settlement_denom().to_owned();
    let mut i: usize = 0;
    proof {
        assert(coins(funds@).skip(0) =~= coins(funds@));
    }
    while i < funds.len()
        invariant
            i <= funds@.len(),
            denom@ == spec_settlement_denom(),
            spec_funds_sent(coins(funds@)) == spec_funds_sent(coins(funds@).skip(i as int)),
        decreases funds@.len() - i,
    {
        proof {
            let rest = coins(funds@).skip(i as int);
            assert(rest[0] == funds@[i as int]@);
            assert(rest.drop_first() =~= coins(funds@).skip(i + 1));
        }
        if funds[i].denom == denom {
            return funds[i].amount;
        }
        i += 1;
    }
    proof {
        assert(coins(funds@).skip(i as int).len() == 0);
    }
    0
}

/// The request that sets a ledger up.
#[derive(Clone, Copy, Debug, PartialEq, Eq)]
pub struct InstantiateMsg {}

/// A request that changes the ledger.
#[derive(Debug, PartialEq, Eq)]
pub enum ExecuteMsg {
    CreatePlan {
        name: String,
        description: String,
        total_participants: u32,
        contribution_amount: u128,
        frequency: String,
        duration_months: u32,
        trust_score_required: u32,
        allow_partial: bool,
    },
    JoinPlan { plan_id: u64 },
    RequestToJoinPlan { plan_id: u64 },
    ApproveJoinRequest { plan_id: u64, requester: String },
    DenyJoinRequest { plan_id: u64, requester: String },
    Contribute { plan_id: u64, amount: u128 },
}

/// The mathematical content of an [`ExecuteMsg`].
pub enum ExecuteMsgView {
    CreatePlan {
        name: Seq<char>,
        description: Seq<char>,
        total_participants: u32,
        contribution_amount: u128,
        frequency: Seq<char>,
        duration_months: u32,
        trust_score_required: u32,
        allow_partial: bool,
    },
    JoinPlan { plan_id: u64 },
    RequestToJoinPlan { plan_id: u64 },
    ApproveJoinRequest { plan_id: u64, requester: Seq<char> },
    DenyJoinRequest { plan_id: u64, requester: Seq<char> },
    Contribute { plan_id: u64, amount: u128 },
}

impl View for ExecuteMsg {
    type V = ExecuteMsgView;

    open spec fn view(&self) -> ExecuteMsgView {
        match self {
            ExecuteMsg::CreatePlan {
                name,
                description,
                total_participants,
                contribution_amount,
                frequency,
                duration_months,
                trust_score_required,
                allow_partial,
            } => ExecuteMsgView::CreatePlan {
                name: name@,
                description: description@,
                total_participants: *total_participants,
                contribution_amount: *contribution_amount,
                frequency: frequency@,
                duration_months: *duration_months,
                trust_score_required: *trust_score_required,
                allow_partial: *allow_partial,
            },
            ExecuteMsg::JoinPlan { plan_id } => ExecuteMsgView::JoinPlan { plan_id: *plan_id },
            ExecuteMsg::RequestToJoinPlan { plan_id } => ExecuteMsgView::RequestToJoinPlan {
                plan_id: *plan_id,
            },
            ExecuteMsg::ApproveJoinRequest { plan_id, requester } => {
                ExecuteMsgView::ApproveJoinRequest { plan_id: *plan_id, requester: requester@ }
            },
            ExecuteMsg::DenyJoinRequest { plan_id, requester } => ExecuteMsgView::DenyJoinRequest {
                plan_id: *plan_id,
                requester: requester@,
            },
            ExecuteMsg::Contribute { plan_id, amount } => ExecuteMsgView::Contribute {
                plan_id: *plan_id,
                amount: *amount,
            },
        }
    }
}

impl Clone for ExecuteMsg {
    fn clone(&self) -> (copy: Self)
        ensures
            copy@ == self@,
    {
        match self {
            ExecuteMsg::CreatePlan {
                name,
                description,
                total_participants,
                contribution_amount,
                frequency,
                duration_months,
                trust_score_required,
                allow_partial,
            } => ExecuteMsg::CreatePlan {
                name: name.clone(),
                description: description.clone(),
                total_participants: *total_participants,
                contribution_amount: *contribution_amount,
                frequency: frequency.clone(),
                duration_months: *duration_months,
                trust_score_required: *trust_score_required,
                allow_partial: *allow_partial,
            },
            ExecuteMsg::JoinPlan { plan_id } => ExecuteMsg::JoinPlan { plan_id: *plan_id },
            ExecuteMsg::RequestToJoinPlan { plan_id } => ExecuteMsg::RequestToJoinPlan {
                plan_id: *plan_id,
            },
            ExecuteMsg::ApproveJoinRequest { plan_id, requester } => {
                ExecuteMsg::ApproveJoinRequest { plan_id: *plan_id, requester: requester.clone() }
            },
            ExecuteMsg::DenyJoinRequest { plan_id, requester } => ExecuteMsg::DenyJoinRequest {
                plan_id: *plan_id,
                requester: requester.clone(),
            },
            ExecuteMsg::Contribute { plan_id, amount } => ExecuteMsg::Contribute {
                plan_id: *plan_id,
                amount: *amount,
            },
        }
    }
}

/// A question about the ledger.
#[derive(Debug, PartialEq, Eq)]
pub enum QueryMsg {
    GetPlan { plan_id: u64 },
    GetPlansByCreator { creator: String },
    GetPlanCount {},
    GetJoinRequests { plan_id: u64 },
    GetParticipantCycleStatus { plan_id: u64, participant: String },
    GetTrustScore { user: String },
}

/// The mathematical content of a [`QueryMsg`].
pub enum QueryMsgView {
    GetPlan { plan_id: u64 },
    GetPlansByCreator { creator: Seq<char> },
    GetPlanCount,
    GetJoinRequests { plan_id: u64 },
    GetParticipantCycleStatus { plan_id: u64, participant: Seq<char> },
    GetTrustScore { user: Seq<char> },
}

impl View for QueryMsg {
    type V = QueryMsgView;

    open spec fn view(&self) -> QueryMsgView {
        match self {
            QueryMsg::GetPlan { plan_id } => QueryMsgView::GetPlan { plan_id: *plan_id },
            QueryMsg::GetPlansByCreator { creator } => QueryMsgView::GetPlansByCreator {
                creator: creator@,
            },
            QueryMsg::GetPlanCount {  } => QueryMsgView::GetPlanCount,
            QueryMsg::GetJoinRequests { plan_id } => QueryMsgView::GetJoinRequests {
                plan_id: *plan_id,
            },
            QueryMsg::GetParticipantCycleStatus { plan_id, participant } => {
                QueryMsgView::GetParticipantCycleStatus {
                    plan_id: *plan_id,
                    participant: participant@,
                }
            },
            QueryMsg::GetTrustScore { user } => QueryMsgView::GetTrustScore { user: user@ },
        }
    }
}

impl Clone for QueryMsg {
    fn clone(&self) -> (copy: Self)
        ensures
            copy@ == self@,
    {
        match self {
            QueryMsg::GetPlan { plan_id } => QueryMsg::GetPlan { plan_id: *plan_id },
            QueryMsg::GetPlansByCreator { creator } => QueryMsg::GetPlansByCreator {
                creator: creator.clone(),
            },
            QueryMsg::GetPlanCount {  } => QueryMsg::GetPlanCount {  },
            QueryMsg::GetJoinRequests { plan_id } => QueryMsg::GetJoinRequests {
                plan_id: *plan_id,
            },
            QueryMsg::GetParticipantCycleStatus { plan_id, participant } => {
                QueryMsg::GetParticipantCycleStatus {
                    plan_id: *plan_id,
                    participant: participant.clone(),
                }
            },
            QueryMsg::GetTrustScore { user } => QueryMsg::GetTrustScore { user: user.clone() },
        }
    }
}

/// The plan asked for, if there is one.
#[derive(Debug, PartialEq, Eq)]
pub struct PlanResponse {
    pub plan: Option<Plan>,
}

impl View for PlanResponse {
    type V = Option<PlanView>;

    open spec fn view(&self) -> Option<PlanView> {
        match self.plan {
            Some(plan) => Some(plan@),
            None => None,
        }
    }
}

impl Clone for PlanResponse {
    fn clone(&self) -> (copy: Self)
        ensures
            copy@ == self@,
    {
        match &self.plan {
            Some(plan) => PlanResponse { plan: Some(plan.clone()) },
            None => PlanResponse { plan: None },
        }
    }
}

/// Where a participant stands in the current personal cycle.
#[derive(Clone, Copy, Debug, PartialEq, Eq, Structural)]
pub struct ParticipantCycleStatusResponse {
    pub cycle: u64,
    /// The plan's contribution per cycle.
    pub required: u128,
    pub contributed_this_cycle: u128,
    /// What is left of the plan's contribution.
    pub remaining_this_cycle: u128,
    pub fully_contributed: bool,
    pub debt: u128,
}

/// The pending join requests of a plan.
#[derive(Debug, PartialEq, Eq)]
pub struct JoinRequestsResponse {
    pub requests: Vec<JoinRequest>,
}

/// The views of a list of join requests.
pub open spec fn requests(list: Seq<JoinRequest>) -> Seq<JoinRequestView> {
    list.map_values(|r: JoinRequest| r@)
}

/// The views of a list of plan answers.
pub open spec fn plan_answers(list: Seq<PlanResponse>) -> Seq<Option<PlanView>> {
    list.map_values(|r: PlanResponse| r@)
}

/// A copy of a list of join requests.
pub fn copy_requests(list: &Vec<JoinRequest>) -> (copy: Vec<JoinRequest>)
    ensures
        requests(copy@) == requests(list@),
{
    let mut copy: Vec<JoinRequest> = Vec::new();
    let mut i: usize = 0;
    while i < list.len()
        invariant
            i <= list@.len(),
            requests(copy@) == requests(list@).take(i as int),
        decreases list@.len() - i,
    {
        let ghost before = copy@;
        let request = list[i].clone();
        copy.push(request);
        proof {
            assert(requests(copy@) =~= requests(before).push(request@));
            assert(requests(list@).take(i as int).push(list@[i as int]@) =~= requests(
                list@,
            ).take(i + 1));
        }
        i += 1;
    }
    proof {
        assert(requests(list@).take(list@.len() as int) =~= requests(list@));
    }
    copy
}

/// A copy of a list of plan answers.
pub fn copy_plan_answers(list: &Vec<PlanResponse>) -> (copy: Vec<PlanResponse>)
    ensures
        plan_answers(copy@) == plan_answers(list@),
{
    let mut copy: Vec<PlanResponse> = Vec::new();
    let mut i: usize = 0;
    while i < list.len()
        invariant
            i <= list@.len(),
            plan_answers(copy@) == plan_answers(list@).take(i as int),
        decreases list@.len() - i,
    {
        let ghost before = copy@;
        let answer = list[i].clone();
        copy.push(answer);
        proof {
            assert(plan_answers(copy@) =~= plan_answers(before).push(answer@));
            assert(plan_answers(list@).take(i as int).push(list@[i as int]@) =~= plan_answers(
                list@,
            ).take(i + 1));
        }
        i += 1;
    }
    proof {
        assert(plan_answers(list@).take(list@.len() as int) =~= plan_answers(list@));
    }
    copy
}

impl Clone for JoinRequestsResponse {
    fn clone(&self) -> (copy: Self)
        ensures
            requests(copy.requests@) == requests(self.requests@),
    {
        JoinRequestsResponse { requests: copy_requests(&self.requests) }
    }
}

/// The instruction to transfer one full round to its recipient.  The engine
/// moves no funds itself: the host carries the instruction out.
#[derive(Debug, PartialEq, Eq)]
pub struct Payout {
    pub recipient: String,
    /// The amount, in the settlement unit.
    pub amount: u128,
}

/// The mathematical content of a [`Payout`].
pub struct PayoutView {
    pub recipient: Seq<char>,
    pub amount: u128,
}

impl View for Payout {
    type V = PayoutView;

    open spec fn view(&self) -> PayoutView {
        PayoutView { recipient: self.recipient@, amount: self.amount }
    }
}

impl Clone for Payout {
    fn clone(&self) -> (copy: Self)
        ensures
            copy@ == self@,
    {
        Payout { recipient: self.recipient.clone(), amount: self.amount }
    }
}

/// The view of a payout that may be absent.
pub open spec fn payout_view(payout: Option<Payout>) -> Option<PayoutView> {
    match payout {
        Some(p) => Some(p@),
        None => None,
    }
}

/// The answer to a request that changed the ledger.
#[derive(Debug, PartialEq, Eq)]
pub enum Response {
    /// The ledger was set up.
    Instantiated,
    /// A plan was created under the given identity.
    PlanCreated { plan_id: u64 },
    /// The request was carried out and has nothing to report.
    Acknowledged,
    /// A contribution was accepted.
    Contributed {
        cycle: u64,
        contributed_total_this_cycle: u128,
        debt_after: u128,
        /// The payout that the contribution triggered, if it filled the pot.
        auto_payout: Option<Payout>,
    },
}

/// The mathematical content of a [`Response`].
pub enum ResponseView {
    Instantiated,
    PlanCreated { plan_id: u64 },
    Acknowledged,
    Contributed {
        cycle: u64,
        contributed_total_this_cycle: u128,
        debt_after: u128,
        auto_payout: Option<PayoutView>,
    },
}

impl View for Response {
    type V = ResponseView;

    open spec fn view(&self) -> ResponseView {
        match self {
            Response::Instantiated => ResponseView::Instantiated,
            Response::PlanCreated { plan_id } => ResponseView::PlanCreated { plan_id: *plan_id },
            Response::Acknowledged => ResponseView::Acknowledged,
            Response::Contributed {
                cycle,
                contributed_total_this_cycle,
                debt_after,
                auto_payout,
            } => ResponseView::Contributed {
                cycle: *cycle,
                contributed_total_this_cycle: *contributed_total_this_cycle,
                debt_after: *debt_after,
                auto_payout: payout_view(*auto_payout),
            },
        }
    }
}

impl Clone for Response {
    fn clone(&self) -> (copy: Self)
        ensures
            copy@ == self@,
    {
        match self {
            Response::Instantiated => Response::Instantiated,
            Response::PlanCreated { plan_id } => Response::PlanCreated { plan_id: *plan_id },
            Response::Acknowledged => Response::Acknowledged,
            Response::Contributed {
                cycle,
                contributed_total_this_cycle,
                debt_after,
                auto_payout,
            } => Response::Contributed {
                cycle: *cycle,
                contributed_total_this_cycle: *contributed_total_this_cycle,
                debt_after: *debt_after,
                auto_payout: match auto_payout {
                    Some(payout) => Some(payout.clone()),
                    None => None,
                },
            },
        }
    }
}

/// The answer to a question about the ledger.
#[derive(Debug, PartialEq, Eq)]
pub enum QueryResponse {
    Plan(PlanResponse),
    Plans(Vec<PlanResponse>),
    PlanCount(u64),
    JoinRequests(JoinRequestsResponse),
    CycleStatus(ParticipantCycleStatusResponse),
    TrustScore(u64),
}

/// The mathematical content of a [`QueryResponse`].
pub enum QueryResponseView {
    Plan(Option<PlanView>),
    Plans(Seq<Option<PlanView>>),
    PlanCount(u64),
    JoinRequests(Seq<JoinRequestView>),
    CycleStatus(ParticipantCycleStatusResponse),
    TrustScore(u64),
}

impl View for QueryResponse {
    type V = QueryResponseView;

    open spec fn view(&self) -> QueryResponseView {
        match self {
            QueryResponse::Plan(r) => QueryResponseView::Plan(r@),
            QueryResponse::Plans(list) => QueryResponseView::Plans(plan_answers(list@)),
            QueryResponse::PlanCount(n) => QueryResponseView::PlanCount(*n),
            QueryResponse::JoinRequests(r) => QueryResponseView::JoinRequests(
                requests(r.requests@),
            ),
            QueryResponse::CycleStatus(s) => QueryResponseView::CycleStatus(*s),
            QueryResponse::TrustScore(score) => QueryResponseView::TrustScore(*score),
        }
    }
}

impl Clone for QueryResponse {
    fn clone(&self) -> (copy: Self)
        ensures
            copy@ == self@,
    {
        match self {
            QueryResponse::Plan(r) => QueryResponse::Plan(r.clone()),
            QueryResponse::Plans(list) => QueryResponse::Plans(copy_plan_answers(list)),
            QueryResponse::PlanCount(n) => QueryResponse::PlanCount(*n),
            QueryResponse::JoinRequests(r) => QueryResponse::JoinRequests(r.clone()),
            QueryResponse::CycleStatus(s) => QueryResponse::CycleStatus(*s),
            QueryResponse::TrustScore(score) => QueryResponse::TrustScore(*score),
        }
    }
}

} // verus!
