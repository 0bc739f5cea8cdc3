//! Accounting and governance engine of a rotating savings circle ("ajo").
//!
//! A fixed group of participants pays a periodic contribution into a shared
//! pot; whenever the pot covers one full round it is paid out to the next
//! participant in turn.  The engine tracks who belongs to a plan, each
//! participant's personal contribution cycle, the debt carried over missed or
//! partial payments, a trust score earned by paying, and admission by vote.
//!
//! Every rule is stated as a contract over a mathematical model of the
//! ledger, and proved:
//!
//! * [`registry`], [`governance`], [`accounting`], [`trust`] and [`payout`]
//!   hold the rules on single records;
//! * [`ledger`] is the store of all records, and [`contract`] and [`query`]
//!   carry the requests out on it;
//! * [`theorems`] holds what is true of every step.

pub mod accounting;
pub mod contract;
pub mod error;
pub mod governance;
pub mod ledger;
pub mod msg;
pub mod order;
pub mod payout;
pub mod query;
pub mod registry;
pub mod state;
pub mod table;
pub mod theorems;
pub mod trust;

pub use crate::accounting::{cycles_between, current_cycle_for_participant};
pub use crate::contract::{
    approve_join_request, deny_join_request, execute, instantiate, request_to_join_plan,
};
pub use crate::error::ContractError;
pub use crate::ledger::Ledger;
pub use crate::msg::{
    Coin, Env, ExecuteMsg, InstantiateMsg, JoinRequestsResponse, MessageInfo,
    ParticipantCycleStatusResponse, Payout, PlanResponse, QueryMsg, QueryResponse, Response,
};
pub use crate::query::query;
pub use crate::state::{cycles_per_month, Config, Frequency, JoinRequest, Plan};
