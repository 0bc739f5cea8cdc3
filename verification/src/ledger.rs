//! The ledger: every record of the engine, held in memory.
//!
//! The ledger is a keyed store with one table for each kind of record.  Its
//! view is a [`LedgerView`], a tuple of finite maps; an entry is either absent
//! or holds a value, and a load of an absent entry reports its absence.
use vstd::prelude::*;
use crate::state::{Config, JoinRequest, JoinRequestView, Plan, PlanView, DEFAULT_TRUST_SCORE};
use crate::table::Table;

verus! {

/// The mathematical content of a [`Ledger`].
#[verifier::ext_equal]
pub struct LedgerView {
    /// The holder of the administrative role, once the ledger is set up.
    pub admin: Option<Seq<char>>,
    /// Number of plans created so far, which is the identity of the latest.
    pub plan_count: u64,
    /// The plans, by identity.
    pub plans: Map<u64, PlanView>,
    /// The identities of the plans that each creator opened, oldest first.
    pub plans_by_creator: Map<Seq<char>, Seq<u64>>,
    /// The pending join requests, by plan and requester.
    pub join_requests: Map<(u64, Seq<char>), JoinRequestView>,
    /// What was paid so far, by plan, participant and personal cycle.
    pub contributions: Map<(u64, Seq<char>, u64), u128>,
    /// The debt carried over from earlier cycles, by plan and participant.
    pub user_debt: Map<(u64, Seq<char>), u128>,
    /// The trust scores, by identity.
    pub trust_scores: Map<Seq<char>, u64>,
    /// The time from which a participant's cycles count, by plan and
    /// participant.
    pub participant_start: Map<(u64, Seq<char>), u64>,
}

impl LedgerView {
    /// The ledger that holds nothing.
    pub open spec fn empty() -> LedgerView {
        LedgerView {
            admin: None,
            plan_count: 0,
            plans: Map::empty(),
            plans_by_creator: Map::empty(),
            join_requests: Map::empty(),
            contributions: Map::empty(),
            user_debt: Map::empty(),
            trust_scores: Map::empty(),
            participant_start: Map::empty(),
        }
    }

    /// Each plan is stored under its own identity and is well formed; each
    /// join request is stored under its own plan and requester.
    pub open spec fn well_formed(self) -> bool {
        &&& forall|id: u64| #[trigger]
            self.plans.contains_key(id) ==> self.plans[id].id == id
                && self.plans[id].well_formed()
        &&& forall|key: (u64, Seq<char>)| #[trigger]
            self.join_requests.contains_key(key) ==> self.join_requests[key].plan_id == key.0
                && self.join_requests[key].requester == key.1
    }

    /// The trust score of `user`: the recorded one, or the default.
    pub open spec fn trust_of(self, user: Seq<char>) -> u64 {
        if self.trust_scores.contains_key(user) {
            self.trust_scores[user]
        } else {
            DEFAULT_TRUST_SCORE
        }
    }

    /// The debt of `who` in the plan: the recorded one, or zero.
    pub open spec fn debt_of(self, plan_id: u64, who: Seq<char>) -> u128 {
        if self.user_debt.contains_key((plan_id, who)) {
            self.user_debt[(plan_id, who)]
        } else {
            0
        }
    }

    /// What `who` has paid for the personal cycle `cycle` of the plan.
    pub open spec fn paid(self, plan_id: u64, who: Seq<char>, cycle: u64) -> u128 {
        if self.contributions.contains_key((plan_id, who, cycle)) {
            self.contributions[(plan_id, who, cycle)]
        } else {
            0
        }
    }

    /// What `who` has paid for the cycle before `cycle`; zero in cycle zero.
    pub open spec fn paid_before(self, plan_id: u64, who: Seq<char>, cycle: u64) -> u128 {
        if cycle > 0 {
            self.paid(plan_id, who, (cycle - 1) as u64)
        } else {
            0
        }
    }

    /// The start time of `who` in the plan, if one is recorded.
    pub open spec fn start_of(self, plan_id: u64, who: Seq<char>) -> Option<u64> {
        if self.participant_start.contains_key((plan_id, who)) {
            Some(self.participant_start[(plan_id, who)])
        } else {
            None
        }
    }

    /// The identities of the plans that `creator` opened, oldest first.
    pub open spec fn plans_of(self, creator: Seq<char>) -> Seq<u64> {
        if self.plans_by_creator.contains_key(creator) {
            self.plans_by_creator[creator]
        } else {
            Seq::empty()
        }
    }
}

/// The store of the engine.
pub struct Ledger {
    config: Option<Config>,
    plan_count: u64,
    plans: Table<u64, Plan>,
    plans_by_creator: Table<String, Vec<u64>>,
    join_requests: Table<(u64, String), JoinRequest>,
    contributions: Table<(u64, String, u64), u128>,
    user_debt: Table<(u64, String), u128>,
    trust_scores: Table<String, u64>,
    participant_start: Table<(u64, String), u64>,
}

impl Ledger {
    /// Every table of the ledger is a well-formed table.
    pub closed spec fn tables_wf(&self) -> bool {
        &&& self.plans.wf()
        &&& self.plans_by_creator.wf()
        &&& self.join_requests.wf()
        &&& self.contributions.wf()
        &&& self.user_debt.wf()
        &&& self.trust_scores.wf()
        &&& self.participant_start.wf()
    }

    /// What the ledger holds.
    pub closed spec fn view(&self) -> LedgerView {
        LedgerView {
            admin: match self.config {
                Some(config) => Some(config.admin@),
                None => None,
            },
            plan_count: self.plan_count,
            plans: self.plans@.map_values(|p: Plan| p@),
            plans_by_creator: self.plans_by_creator@.map_values(|ids: Vec<u64>| ids@),
            join_requests: self.join_requests@.map_values(|r: JoinRequest| r@),
            contributions: self.contributions@,
            user_debt: self.user_debt@,
            trust_scores: self.trust_scores@,
            participant_start: self.participant_start@,
        }
    }

    /// The ledger's tables are well formed, and so is what they hold.
    pub open spec fn wf(&self) -> bool {
        self.tables_wf() && self@.well_formed()
    }

    /// The ledger that holds nothing: no plan has been created and no
    /// identity has a score.
    pub fn new() -> (ledger: Ledger)
        ensures
            ledger.wf(),
            ledger@ == LedgerView::empty(),
    {
        let ledger = Ledger {
            config: None,
            plan_count: 0,
            plans: Table::new(),
            plans_by_creator: Table::new(),
            join_requests: Table::new(),
            contributions: Table::new(),
            user_debt: Table::new(),
            trust_scores: Table::new(),
            participant_start: Table::new(),
        };
        proof {
            assert(ledger@.plans =~= Map::<u64, PlanView>::empty());
            assert(ledger@.plans_by_creator =~= Map::<Seq<char>, Seq<u64>>::empty());
            assert(ledger@.join_requests =~= Map::<(u64, Seq<char>), JoinRequestView>::empty());
            assert(ledger@ =~= LedgerView::empty());
        }
        ledger
    }

    /// The holder of the administrative role, once the ledger is set up.
    pub fn admin(&self) -> (r: Option<&String>)
        ensures
            match r {
                Some(admin) => self@.admin == Some(admin@),
                None => self@.admin is None,
            },
    {
        match &self.config {
            Some(config) => Some(&config.admin),
            None => None,
        }
    }

    /// Records the holder of the administrative role.
    pub fn save_config(&mut self, config: Config)
        requires
            old(self).wf(),
        ensures
            final(self).wf(),
            final(self)@ == (LedgerView { admin: Some(config.admin@), ..old(self)@ }),
    {
        self.config = Some(config);
    }

    /// Number of plans created so far.
    pub fn plan_count(&self) -> (count: u64)
        ensures
            count == self@.plan_count,
    {
        self.plan_count
    }

    /// Records the number of plans created so far.
    pub fn save_plan_count(&mut self, count: u64)
        requires
            old(self).wf(),
        ensures
            final(self).wf(),
            final(self)@ == (LedgerView { plan_count: count, ..old(self)@ }),
    {
        self.plan_count = count;
    }

    /// The plan with identity `id`, if there is one.
    pub fn plan(&self, id: u64) -> (r: Option<&Plan>)
        requires
            self.wf(),
        ensures
            match r {
                Some(plan) => self@.plans.contains_key(id) && plan@ == self@.plans[id],
                None => !self@.plans.contains_key(id),
            },
    {
        self.plans.get(&id)
    }

    /// Stores a plan under its identity.
    pub fn save_plan(&mut self, plan: Plan)
        requires
            old(self).wf(),
            plan@.well_formed(),
        ensures
            final(self).wf(),
            final(self)@ == (LedgerView {
                plans: old(self)@.plans.insert(plan@.id, plan@),
                ..old(self)@
            }),
    {
        let ghost before = *self;
        let ghost content = plan@;
        let id = plan.id;
        self.plans.set(id, plan);
        proof {
            assert(self@.plans =~= before@.plans.insert(id, content));
            assert(self@ =~= (LedgerView { plans: before@.plans.insert(id, content), ..before@ }));
        }
    }

    /// The identities of the plans that `creator` opened, if any is recorded.
    pub fn creator_plans(&self, creator: &String) -> (r: Option<&Vec<u64>>)
        requires
            self.wf(),
        ensures
            match r {
                Some(ids) => self@.plans_by_creator.contains_key(creator@) && ids@
                    == self@.plans_by_creator[creator@],
                None => !self@.plans_by_creator.contains_key(creator@),
            },
    {
        self.plans_by_creator.get(creator)
    }

    /// Records the identities of the plans that `creator` opened.
    pub fn save_creator_plans(&mut self, creator: String, ids: Vec<u64>)
        requires
            old(self).wf(),
        ensures
            final(self).wf(),
            final(self)@ == (LedgerView {
                plans_by_creator: old(self)@.plans_by_creator.insert(creator@, ids@),
                ..old(self)@
            }),
    {
        let ghost before = *self;
        let ghost key = creator@;
        let ghost content = ids@;
        self.plans_by_creator.set(creator, ids);
        proof {
            assert(self@.plans_by_creator =~= before@.plans_by_creator.insert(key, content));
            assert(self@ =~= (LedgerView {
                plans_by_creator: before@.plans_by_creator.insert(key, content),
                ..before@
            }));
        }
    }

    /// The pending request of `requester` to join the plan, if there is one.
    pub fn join_request(&self, plan_id: u64, requester: &String) -> (r: Option<&JoinRequest>)
        requires
            self.wf(),
        ensures
            match r {
                Some(request) => self@.join_requests.contains_key((plan_id, requester@))
                    && request@ == self@.join_requests[(plan_id, requester@)],
                None => !self@.join_requests.contains_key((plan_id, requester@)),
            },
    {
        let key = (plan_id, requester.clone());
        self.join_requests.get(&key)
    }

    /// Stores a join request under its plan and requester.
    pub fn save_join_request(&mut self, request: JoinRequest)
        requires
            old(self).wf(),
        ensures
            final(self).wf(),
            final(self)@ == (LedgerView {
                join_requests: old(self)@.join_requests.insert(
                    (request@.plan_id, request@.requester),
                    request@,
                ),
                ..old(self)@
            }),
    {
        let ghost before = *self;
        let ghost content = request@;
        let key = (request.plan_id, request.requester.clone());
        self.join_requests.set(key, request);
        proof {
            let k = (content.plan_id, content.requester);
            assert(self@.join_requests =~= before@.join_requests.insert(k, content));
            assert(self@ =~= (LedgerView {
                join_requests: before@.join_requests.insert(k, content),
                ..before@
            }));
        }
    }

    /// Deletes the pending request of `requester` to join the plan.
    pub fn remove_join_request(&mut self, plan_id: u64, requester: &String)
        requires
            old(self).wf(),
        ensures
            final(self).wf(),
            final(self)@ == (LedgerView {
                join_requests: old(self)@.join_requests.remove((plan_id, requester@)),
                ..old(self)@
            }),
    {
        let ghost before = *self;
        let key = (plan_id, requester.clone());
        self.join_requests.remove(&key);
        proof {
            let k = (plan_id, requester@);
            assert(self@.join_requests =~= before@.join_requests.remove(k));
            assert(self@ =~= (LedgerView {
                join_requests: before@.join_requests.remove(k),
                ..before@
            }));
        }
    }

    /// Number of pending join requests, over all plans.
    pub fn join_request_count(&self) -> (n: usize)
        ensures
            n == self.join_request_keys().len(),
    {
        self.join_requests.len()
    }

    /// The keys of the pending join requests: each plan and requester with a
    /// pending request once, in the order in which the requests were filed.
    pub closed spec fn join_request_keys(&self) -> Seq<(u64, Seq<char>)> {
        self.join_requests.order()
    }

    /// The keys of the pending join requests are those of the view, each once.
    pub proof fn lemma_join_request_keys(&self)
        requires
            self.wf(),
        ensures
            self.join_request_keys().no_duplicates(),
            forall|key: (u64, Seq<char>)|
                self.join_request_keys().contains(key) <==> self@.join_requests.contains_key(key),
    {
        self.join_requests.lemma_order();
    }

    /// The pending join request at place `i`.
    pub fn join_request_at(&self, i: usize) -> (request: &JoinRequest)
        requires
            self.wf(),
            i < self.join_request_keys().len(),
        ensures
            self@.join_requests.contains_key(self.join_request_keys()[i as int]),
            request@ == self@.join_requests[self.join_request_keys()[i as int]],
    {
        self.join_requests.value_at(i)
    }

    /// What `who` has paid for the personal cycle `cycle` of the plan, if an
    /// entry is recorded.
    pub fn contribution(&self, plan_id: u64, who: &String, cycle: u64) -> (r: Option<u128>)
        requires
            self.wf(),
        ensures
            match r {
                Some(paid) => self@.contributions.contains_key((plan_id, who@, cycle)) && paid
                    == self@.contributions[(plan_id, who@, cycle)],
                None => !self@.contributions.contains_key((plan_id, who@, cycle)),
            },
    {
        let key = (plan_id, who.clone(), cycle);
        match self.contributions.get(&key) {
            Some(paid) => Some(*paid),
            None => None,
        }
    }

    /// Records what `who` has paid for the personal cycle `cycle` of the plan.
    pub fn save_contribution(&mut self, plan_id: u64, who: &String, cycle: u64, paid: u128)
        requires
            old(self).wf(),
        ensures
            final(self).wf(),
            final(self)@ == (LedgerView {
                contributions: old(self)@.contributions.insert((plan_id, who@, cycle), paid),
                ..old(self)@
            }),
    {
        let ghost before = *self;
        self.contributions.set((plan_id, who.clone(), cycle), paid);
        proof {
            assert(self@ =~= (LedgerView {
                contributions: before@.contributions.insert((plan_id, who@, cycle), paid),
                ..before@
            }));
        }
    }

    /// The recorded debt of `who` in the plan, if there is an entry.
    pub fn debt(&self, plan_id: u64, who: &String) -> (r: Option<u128>)
        requires
            self.wf(),
        ensures
            match r {
                Some(debt) => self@.user_debt.contains_key((plan_id, who@)) && debt
                    == self@.user_debt[(plan_id, who@)],
                None => !self@.user_debt.contains_key((plan_id, who@)),
            },
    {
        let key = (plan_id, who.clone());
        match self.user_debt.get(&key) {
            Some(debt) => Some(*debt),
            None => None,
        }
    }

    /// Records the debt of `who` in the plan.
    pub fn save_debt(&mut self, plan_id: u64, who: &String, debt: u128)
        requires
            old(self).wf(),
        ensures
            final(self).wf(),
            final(self)@ == (LedgerView {
                user_debt: old(self)@.user_debt.insert((plan_id, who@), debt),
                ..old(self)@
            }),
    {
        let ghost before = *self;
        self.user_debt.set((plan_id, who.clone()), debt);
        proof {
            assert(self@ =~= (LedgerView {
                user_debt: before@.user_debt.insert((plan_id, who@), debt),
                ..before@
            }));
        }
    }

    /// The recorded trust score of `user`, if there is one.
    pub fn trust_score(&self, user: &String) -> (r: Option<u64>)
        requires
            self.wf(),
        ensures
            match r {
                Some(score) => self@.trust_scores.contains_key(user@) && score
                    == self@.trust_scores[user@],
                None => !self@.trust_scores.contains_key(user@),
            },
    {
        match self.trust_scores.get(user) {
            Some(score) => Some(*score),
            None => None,
        }
    }

    /// Records the trust score of `user`.
    pub fn save_trust_score(&mut self, user: &String, score: u64)
        requires
            old(self).wf(),
        ensures
            final(self).wf(),
            final(self)@ == (LedgerView {
                trust_scores: old(self)@.trust_scores.insert(user@, score),
                ..old(self)@
            }),
    {
        let ghost before = *self;
        self.trust_scores.set(user.clone(), score);
        proof {
            assert(self@ =~= (LedgerView {
                trust_scores: before@.trust_scores.insert(user@, score),
                ..before@
            }));
        }
    }

    /// The recorded start time of `who` in the plan, if there is one.
    pub fn participant_start(&self, plan_id: u64, who: &String) -> (r: Option<u64>)
        requires
            self.wf(),
        ensures
            r == self@.start_of(plan_id, who@),
    {
        let key = (plan_id, who.clone());
        match self.participant_start.get(&key) {
            Some(start) => Some(*start),
            None => None,
        }
    }

    /// Records the time from which the cycles of `who` in the plan count.
    pub fn save_participant_start(&mut self, plan_id: u64, who: &String, start: u64)
        requires
            old(self).wf(),
        ensures
            final(self).wf(),
            final(self)@ == (LedgerView {
                participant_start: old(self)@.participant_start.insert((plan_id, who@), start),
                ..old(self)@
            }),
    {
        let ghost before = *self;
        self.participant_start.set((plan_id, who.clone()), start);
        proof {
            assert(self@ =~= (LedgerView {
                participant_start: before@.participant_start.insert((plan_id, who@), start),
                ..before@
            }));
        }
    }
}

} // verus!
