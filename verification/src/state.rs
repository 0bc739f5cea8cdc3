//! The records the engine keeps: plans, join requests and the cadence of a plan.
//!
//! Every record has a view that replaces each piece of text by its sequence of
//! characters; the contracts of the engine speak of these views only.
use vstd::prelude::*;

verus! {

/// Number of seconds in a day.
pub const SECONDS_PER_DAY: u64 = 86_400;

/// Trust score of an identity that has no recorded score yet.
pub const DEFAULT_TRUST_SCORE: u64 = 50;

/// How often a participant owes one contribution.
#[derive(Clone, Copy, Debug, PartialEq, Eq, Structural)]
pub enum Frequency {
    Daily,
    Weekly,
    Monthly,
}

/// The cadence that a name written with a capital initial stands for.
pub open spec fn frequency_named(name: Seq<char>) -> Option<Frequency> {
    if name == "Daily"@ {
        Some(Frequency::Daily)
    } else if name == "Weekly"@ {
        Some(Frequency::Weekly)
    } else if name == "Monthly"@ {
        Some(Frequency::Monthly)
    } else {
        None
    }
}

/// Number of payout rounds that one month of a plan holds.
pub open spec fn spec_cycles_per_month(freq: Frequency) -> u32 {
    match freq {
        Frequency::Daily => 30u32,
        Frequency::Weekly => 4u32,
        Frequency::Monthly => 1u32,
    }
}

/// Number of payout rounds that one month of a plan holds: 30 for a daily
/// plan, 4 for a weekly one, 1 for a monthly one.
pub fn cycles_per_month(freq: &Frequency) -> (cycles: u32)
    ensures
        cycles == spec_cycles_per_month(*freq),
{
    match freq {
        Frequency::Daily => 30,
        Frequency::Weekly => 4,
        Frequency::Monthly => 1,
    }
}

/// Whether two pieces of text hold the same characters.
pub fn same_text(a: &str, b: &str) -> (r: bool)
    ensures
        r == (a@ == b@),
{
    let x = a.to_owned();
    let y = b.to_owned();
    x == y
}

impl Frequency {
    /// Length of one personal contribution cycle, in seconds.
    pub open spec fn spec_period_seconds(self) -> u64 {
        match self {
            Frequency::Daily => 86_400u64,
            Frequency::Weekly => 604_800u64,
            Frequency::Monthly => 2_592_000u64,
        }
    }

    /// Length of one personal contribution cycle, in seconds: a day, seven
    /// days or thirty days.
    #[verifier::when_used_as_spec(spec_period_seconds)]
    pub fn period_seconds(self) -> (seconds: u64)
        ensures
            seconds == self.spec_period_seconds(),
    {
        match self {
            Frequency::Daily => SECONDS_PER_DAY,
            Frequency::Weekly => 7 * SECONDS_PER_DAY,
            Frequency::Monthly => 30 * SECONDS_PER_DAY,
        }
    }

    /// The name of the cadence, as it is written in a request.
    pub open spec fn spec_name(self) -> Seq<char> {
        match self {
            Frequency::Daily => "Daily"@,
            Frequency::Weekly => "Weekly"@,
            Frequency::Monthly => "Monthly"@,
        }
    }

    /// The name of the cadence, as it is written in a request.
    pub fn name(&self) -> (text: &'static str)
        ensures
            text@ == self.spec_name(),
    {
        match self {
            Frequency::Daily => "Daily",
            Frequency::Weekly => "Weekly",
            Frequency::Monthly => "Monthly",
        }
    }

    /// Reads a cadence from its name.  Only `Daily`, `Weekly` and `Monthly`,
    /// written exactly so, are names of a cadence.
    pub fn parse(name: &str) -> (r: Option<Frequency>)
        ensures
            r == frequency_named(name@),
    {
        if same_text(name, "Daily") {
            Some(Frequency::Daily)
        } else if same_text(name, "Weekly") {
            Some(Frequency::Weekly)
        } else if same_text(name, "Monthly") {
            Some(Frequency::Monthly)
        } else {
            None
        }
    }
}

/// The character sequences of a list of texts.
pub open spec fn texts(list: Seq<String>) -> Seq<Seq<char>> {
    list.map_values(|s: String| s@)
}

/// A copy of a list of texts.
pub fn copy_texts(list: &Vec<String>) -> (copy: Vec<String>)
    ensures
        copy@ == list@,
{
    let mut copy: Vec<String> = Vec::new();
    let mut i: usize = 0;
    while i < list.len()
        invariant
            i <= list@.len(),
            copy@ == list@.take(i as int),
        decreases list@.len() - i,
    {
        copy.push(list[i].clone());
        proof {
            assert(list@.take(i as int).push(list@[i as int]) =~= list@.take(i + 1));
        }
        i += 1;
    }
    proof {
        assert(list@.take(list@.len() as int) =~= list@);
    }
    copy
}

/// The first place at which `who` stands in `list`, if it stands there at all.
pub fn find_text(list: &Vec<String>, who: &String) -> (r: Option<usize>)
    ensures
        match r {
            Some(i) => i < list@.len() && texts(list@)[i as int] == who@ && forall|j: int|
                0 <= j < i ==> texts(list@)[j] != who@,
            None => !texts(list@).contains(who@),
        },
{
    let mut i: usize = 0;
    while i < list.len()
        invariant
            i <= list@.len(),
            forall|j: int| 0 <= j < i ==> texts(list@)[j] != who@,
        decreases list@.len() - i,
    {
        if list[i] == *who {
            return Some(i);
        }
        i += 1;
    }
    None
}

/// Whether `who` stands in `list`.
pub fn contains_text(list: &Vec<String>, who: &String) -> (r: bool)
    ensures
        r == texts(list@).contains(who@),
{
    find_text(list, who).is_some()
}

/// The holder of the administrative role.
#[derive(Debug, PartialEq, Eq)]
pub struct Config {
    pub admin: String,
}

impl Clone for Config {
    fn clone(&self) -> (copy: Self)
        ensures
            copy.admin@ == self.admin@,
    {
        Config { admin: self.admin.clone() }
    }
}

/// One savings circle.
#[derive(Debug, PartialEq, Eq)]
pub struct Plan {
    pub id: u64,
    pub name: String,
    pub description: String,
    pub total_participants: u32,
    pub contribution_amount: u128,
    pub frequency: Frequency,
    pub duration_months: u32,
    pub trust_score_required: u32,
    pub allow_partial: bool,
    /// The members, in payout order.
    pub participants: Vec<String>,
    /// Number of payout rounds completed so far.
    pub current_cycle: u32,
    pub is_active: bool,
    /// Place in `participants` of the next recipient.
    pub payout_index: u32,
    /// The pooled funds that have not been paid out yet.
    pub balance: u128,
    pub created_by: String,
}

/// The mathematical content of a [`Plan`].
pub struct PlanView {
    pub id: u64,
    pub name: Seq<char>,
    pub description: Seq<char>,
    pub total_participants: u32,
    pub contribution_amount: u128,
    pub frequency: Frequency,
    pub duration_months: u32,
    pub trust_score_required: u32,
    pub allow_partial: bool,
    pub participants: Seq<Seq<char>>,
    pub current_cycle: u32,
    pub is_active: bool,
    pub payout_index: u32,
    pub balance: u128,
    pub created_by: Seq<char>,
}

impl PlanView {
    /// The plan has a member, and the payout cursor points at one.
    pub open spec fn well_formed(self) -> bool {
        self.payout_index < self.participants.len()
    }

    /// The plan holds no more members than it was created for.
    pub open spec fn within_capacity(self) -> bool {
        self.participants.len() <= self.total_participants
    }

    /// Whether `who` is a member.
    pub open spec fn has_member(self, who: Seq<char>) -> bool {
        self.participants.contains(who)
    }
}

impl View for Plan {
    type V = PlanView;

    open spec fn view(&self) -> PlanView {
        PlanView {
            id: self.id,
            name: self.name@,
            description: self.description@,
            total_participants: self.total_participants,
            contribution_amount: self.contribution_amount,
            frequency: self.frequency,
            duration_months: self.duration_months,
            trust_score_required: self.trust_score_required,
            allow_partial: self.allow_partial,
            participants: texts(self.participants@),
            current_cycle: self.current_cycle,
            is_active: self.is_active,
            payout_index: self.payout_index,
            balance: self.balance,
            created_by: self.created_by@,
        }
    }
}

impl Clone for Plan {
    fn clone(&self) -> (copy: Self)
        ensures
            copy@ == self@,
    {
        Plan {
            id: self.id,
            name: self.name.clone(),
            description: self.description.clone(),
            total_participants: self.total_participants,
            contribution_amount: self.contribution_amount,
            frequency: self.frequency,
            duration_months: self.duration_months,
            trust_score_required: self.trust_score_required,
            allow_partial: self.allow_partial,
            participants: copy_texts(&self.participants),
            current_cycle: self.current_cycle,
            is_active: self.is_active,
            payout_index: self.payout_index,
            balance: self.balance,
            created_by: self.created_by.clone(),
        }
    }
}

impl Plan {
    /// Whether the plan has a member and the payout cursor points at one.
    pub fn is_well_formed(&self) -> (r: bool)
        ensures
            r == self@.well_formed(),
    {
        (self.payout_index as usize) < self.participants.len()
    }

    /// Whether `who` is a member.
    pub fn is_member(&self, who: &String) -> (r: bool)
        ensures
            r == self@.has_member(who@),
    {
        contains_text(&self.participants, who)
    }
}

/// A pending application for membership, with the votes cast on it so far.
#[derive(Debug, PartialEq, Eq)]
pub struct JoinRequest {
    pub plan_id: u64,
    pub requester: String,
    /// Those who voted to admit the requester.
    pub approvals: Vec<String>,
    /// Those who voted against.
    pub denials: Vec<String>,
}

/// The mathematical content of a [`JoinRequest`].
pub struct JoinRequestView {
    pub plan_id: u64,
    pub requester: Seq<char>,
    pub approvals: Seq<Seq<char>>,
    pub denials: Seq<Seq<char>>,
}

impl JoinRequestView {
    /// Whether `voter` has voted on the request, either way.
    pub open spec fn has_voted(self, voter: Seq<char>) -> bool {
        self.approvals.contains(voter) || self.denials.contains(voter)
    }
}

impl View for JoinRequest {
    type V = JoinRequestView;

    open spec fn view(&self) -> JoinRequestView {
        JoinRequestView {
            plan_id: self.plan_id,
            requester: self.requester@,
            approvals: texts(self.approvals@),
            denials: texts(self.denials@),
        }
    }
}

impl Clone for JoinRequest {
    fn clone(&self) -> (copy: Self)
        ensures
            copy@ == self@,
    {
        JoinRequest {
            plan_id: self.plan_id,
            requester: self.requester.clone(),
            approvals: copy_texts(&self.approvals),
            denials: copy_texts(&self.denials),
        }
    }
}

impl JoinRequest {
    /// A fresh request, with no vote cast yet.
    pub fn new(plan_id: u64, requester: String) -> (request: Self)
        ensures
            request@ == (JoinRequestView {
                plan_id,
                requester: requester@,
                approvals: Seq::<Seq<char>>::empty(),
                denials: Seq::<Seq<char>>::empty(),
            }),
    {
        let request = JoinRequest { plan_id, requester, approvals: Vec::new(), denials: Vec::new() };
        proof {
            assert(texts(request.approvals@) =~= Seq::<Seq<char>>::empty());
            assert(texts(request.denials@) =~= Seq::<Seq<char>>::empty());
        }
        request
    }

    /// Whether `voter` has voted on the request, either way.
    pub fn has_voted(&self, voter: &String) -> (r: bool)
        ensures
            r == self@.has_voted(voter@),
    {
        contains_text(&self.approvals, voter) || contains_text(&self.denials, voter)
    }
}

} // verus!
