//! The plan registry: which parameters make a plan, and the plan they make.
use vstd::prelude::*;
use vstd::string::StrSliceExecFns;
use crate::error::{
    reason_frequency, reason_overflow, reason_parameters, ContractError, ErrorView,
};
use crate::state::{frequency_named, texts, Frequency, Plan, PlanView};

verus! {

/// Whether the numbers and the lengths of the texts of a new plan are within
/// their bounds.  Lengths count characters.
pub open spec fn valid_plan_parameters(
    name: Seq<char>,
    description: Seq<char>,
    total_participants: u32,
    contribution_amount: u128,
    duration_months: u32,
) -> bool {
    &&& 2 <= total_participants <= 100
    &&& 10 <= contribution_amount <= 100000
    &&& 1 <= duration_months <= 36
    &&& 3 <= name.len() <= 50
    &&& 10 <= description.len() <= 500
}

/// The plan that `creator` opens under the identity `id`: the creator is its
/// only member, it is active, and nothing has been paid or paid out.
pub open spec fn opened_plan(
    id: u64,
    creator: Seq<char>,
    name: Seq<char>,
    description: Seq<char>,
    total_participants: u32,
    contribution_amount: u128,
    frequency: Frequency,
    duration_months: u32,
    trust_score_required: u32,
    allow_partial: bool,
) -> PlanView {
    PlanView {
        id,
        name,
        description,
        total_participants,
        contribution_amount,
        frequency,
        duration_months,
        trust_score_required,
        allow_partial,
        participants: seq![creator],
        current_cycle: 0,
        is_active: true,
        payout_index: 0,
        balance: 0,
        created_by: creator,
    }
}

/// The plan that the parameters make, or the reason for which they make none:
/// a number or a length out of bounds, or a cadence that is not one of
/// `Daily`, `Weekly` and `Monthly`.
pub open spec fn spec_new_plan(
    id: u64,
    creator: Seq<char>,
    name: Seq<char>,
    description: Seq<char>,
    total_participants: u32,
    contribution_amount: u128,
    frequency: Seq<char>,
    duration_months: u32,
    trust_score_required: u32,
    allow_partial: bool,
) -> Result<PlanView, ErrorView> {
    match spec_check_plan_parameters(
        name,
        description,
        total_participants,
        contribution_amount,
        frequency,
        duration_months,
    ) {
        Err(e) => Err(e),
        Ok(cadence) => Ok(
            opened_plan(
                id,
                creator,
                name,
                description,
                total_participants,
                contribution_amount,
                cadence,
                duration_months,
                trust_score_required,
                allow_partial,
            ),
        ),
    }
}

/// Whether the length of `text`, in characters, lies between `least` and
/// `most`.
pub fn length_within(text: &String, least: usize, most: usize) -> (r: bool)
    ensures
        r == (least <= text@.len() <= most),
{
    let n = text.as_str().unicode_len();
    least <= n && n <= most
}

/// The cadence that the parameters of a new plan name, or the reason for
/// which the parameters make no plan.
pub open spec fn spec_check_plan_parameters(
    name: Seq<char>,
    description: Seq<char>,
    total_participants: u32,
    contribution_amount: u128,
    frequency: Seq<char>,
    duration_months: u32,
) -> Result<Frequency, ErrorView> {
    if !valid_plan_parameters(
        name,
        description,
        total_participants,
        contribution_amount,
        duration_months,
    ) {
        Err(ErrorView::InvalidInput(reason_parameters()))
    } else {
        match frequency_named(frequency) {
            None => Err(ErrorView::InvalidInput(reason_frequency())),
            Some(cadence) => Ok(cadence),
        }
    }
}

/// Checks the parameters of a new plan: the numbers and lengths against their
/// bounds first, then the cadence.
pub fn check_plan_parameters(
    name: &String,
    description: &String,
    total_participants: u32,
    contribution_amount: u128,
    frequency: &str,
    duration_months: u32,
) -> (r: Result<Frequency, ContractError>)
    ensures
        match spec_check_plan_parameters(
            name@,
            description@,
            total_participants,
            contribution_amount,
            frequency@,
            duration_months,
        ) {
            Ok(cadence) => r == Ok::<Frequency, ContractError>(cadence),
            Err(e) => r is Err && r->Err_0@ == e,
        },
{
    if total_participants < 2 || total_participants > 100 || contribution_amount < 10
        || contribution_amount > 100000 || duration_months < 1 || duration_months > 36
        || !length_within(name, 3, 50) || !length_within(description, 10, 500) {
        return Err(ContractError::invalid_input("Invalid input parameters"));
    }
    match Frequency::parse(frequency) {
        Some(cadence) => Ok(cadence),
        None => Err(ContractError::invalid_input("Invalid frequency")),
    }
}

/// The identity of the plan created after `count` plans, where one is left.
pub open spec fn spec_next_plan_id(count: u64) -> Result<u64, ErrorView> {
    if count + 1 > u64::MAX {
        Err(ErrorView::InvalidInput(reason_overflow()))
    } else {
        Ok((count + 1) as u64)
    }
}

/// The identity of the plan created after `count` plans; fails when the
/// identities are used up.
pub fn next_plan_id(count: u64) -> (r: Result<u64, ContractError>)
    ensures
        match spec_next_plan_id(count) {
            Ok(id) => r == Ok::<u64, ContractError>(id),
            Err(e) => r is Err && r->Err_0@ == e,
        },
{
    match count.checked_add(1) {
        Some(id) => Ok(id),
        None => Err(ContractError::overflow()),
    }
}

/// Takes the plan that a lookup of plan `plan_id` found, or fails naming the
/// missing plan.
pub fn existing_plan(found: Option<Plan>, plan_id: u64) -> (r: Result<Plan, ContractError>)
    ensures
        match found {
            Some(plan) => r is Ok && r->Ok_0@ == plan@,
            None => r is Err && r->Err_0@ == ErrorView::PlanNotFound(plan_id),
        },
{
    match found {
        Some(plan) => Ok(plan),
        None => Err(ContractError::PlanNotFound(plan_id)),
    }
}

/// The list of a creator's plans with one more identity at its end; a creator
/// without a list starts a new one.
pub open spec fn spec_creator_index_with(ids: Option<Seq<u64>>, plan_id: u64) -> Seq<u64> {
    match ids {
        Some(ids) => ids.push(plan_id),
        None => seq![plan_id],
    }
}

/// Adds the identity of a new plan to the list of its creator's plans.
pub fn creator_index_with(ids: Option<Vec<u64>>, plan_id: u64) -> (list: Vec<u64>)
    ensures
        list@ == spec_creator_index_with(
            match ids {
                Some(ids) => Some(ids@),
                None => None,
            },
            plan_id,
        ),
{
    let mut list: Vec<u64> = match ids {
        Some(ids) => ids,
        None => Vec::new(),
    };
    list.push(plan_id);
    list
}

/// Opens the plan of `creator` under the identity `id`, from parameters that
/// were checked.
pub fn open_plan(
    id: u64,
    creator: &String,
    name: String,
    description: String,
    total_participants: u32,
    contribution_amount: u128,
    frequency: Frequency,
    duration_months: u32,
    trust_score_required: u32,
    allow_partial: bool,
) -> (plan: Plan)
    ensures
        plan@ == opened_plan(
            id,
            creator@,
            name@,
            description@,
            total_participants,
            contribution_amount,
            frequency,
            duration_months,
            trust_score_required,
            allow_partial,
        ),
        plan@.well_formed(),
{
    let mut participants: Vec<String> = Vec::new();
    participants.push(creator.clone());
    proof {
        assert(texts(participants@) =~= seq![creator@]);
    }
    Plan {
        id,
        name,
        description,
        total_participants,
        contribution_amount,
        frequency,
        duration_months,
        trust_score_required,
        allow_partial,
        participants,
        current_cycle: 0,
        is_active: true,
        payout_index: 0,
        balance: 0,
        created_by: creator.clone(),
    }
}

/// Checks the parameters of a new plan and opens the plan.
pub fn new_plan(
    id: u64,
    creator: &String,
    name: String,
    description: String,
    total_participants: u32,
    contribution_amount: u128,
    frequency: &str,
    duration_months: u32,
    trust_score_required: u32,
    allow_partial: bool,
) -> (r: Result<Plan, ContractError>)
    ensures
        match spec_new_plan(
            id,
            creator@,
            name@,
            description@,
            total_participants,
            contribution_amount,
            frequency@,
            duration_months,
            trust_score_required,
            allow_partial,
        ) {
            Ok(plan) => r is Ok && r->Ok_0@ == plan,
            Err(e) => r is Err && r->Err_0@ == e,
        },
        r is Ok ==> r->Ok_0@.well_formed(),
{
    match check_plan_parameters(
        &name,
        &description,
        total_participants,
        contribution_amount,
        frequency,
        duration_months,
    ) {
        Ok(cadence) => Ok(
            open_plan(
                id,
                creator,
                name,
                description,
                total_participants,
                contribution_amount,
                cadence,
                duration_months,
                trust_score_required,
                allow_partial,
            ),
        ),
        Err(e) => Err(e),
    }
}

} // verus!
