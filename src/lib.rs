//! A single-asset staking ledger: accounts lock a balance for one of a few
//! fixed terms, add to it while the term runs, take it back once the term is
//! over, and claim a flat reward that depends on the chosen term.
//!
//! The library keeps the ledger and decides every operation. Authorisation,
//! the clock, token movements and persistence belong to the host: each
//! operation takes the current time as an argument and hands back the token
//! movement that the host must carry out.
pub mod address;
pub mod contract;
pub mod detail;
pub mod laws;
pub mod ledger;
pub mod plan;

pub use address::Address;
pub use contract::{ContractModel, StakingContract};
pub use detail::{DataKey, Error, StakeDetail, StakeModel, Transfer, TransferModel};
pub use ledger::StakeLedger;
pub use plan::{end_time, is_valid_plan, reward_for, term_seconds, PLAN1, PLAN2, PLAN3, SECONDS_PER_DAY};
