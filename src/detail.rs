//! Stake records, token movements and the errors of the ledger.
use vstd::prelude::*;

use crate::address::Address;

verus! {

/// Why an operation was refused.
#[derive(Debug, Clone, Copy, PartialEq, Eq, Structural)]
pub enum Error {
    /// The account holds no position.
    StakeDetailNotExist,
    /// The requested term is not in the catalogue.
    PlanNotExist,
    /// The lock has not expired yet.
    PlanNotFinished,
    /// The position holds nothing.
    ZeroStake,
    /// The configuration was set before.
    AlreadyInitialized,
}

/// Keys of the one-time configuration.
#[derive(Debug, Clone, Copy, PartialEq, Eq, Structural)]
pub enum DataKey {
    /// The asset in which rewards are paid.
    RewardToken,
    /// The administrator who set the configuration.
    TokenAdmin,
}

/// What the ledger knows of one account's position.
#[derive(Debug)]
pub struct StakeDetail {
    /// The account, or the ledger's own identity where there is no position.
    pub owner: Address,
    /// Amount currently held for the account.
    pub total_staked: i128,
    /// Amount added by the most recent stake.
    pub last_staked: i128,
    /// Kept at zero: rewards are computed, never stored.
    pub reward_amount: i128,
    /// The chosen term, in days.
    pub plan: u64,
    /// When the current lock expires, in seconds.
    pub end_time: u64,
}

/// The mathematical value of a [`StakeDetail`].
pub struct StakeModel {
    pub owner: Seq<u8>,
    pub total_staked: int,
    pub last_staked: int,
    pub reward_amount: int,
    pub plan: u64,
    pub end_time: u64,
}

impl View for StakeDetail {
    type V = StakeModel;

    open spec fn view(&self) -> StakeModel {
        StakeModel {
            owner: self.owner@,
            total_staked: self.total_staked as int,
            last_staked: self.last_staked as int,
            reward_amount: self.reward_amount as int,
            plan: self.plan,
            end_time: self.end_time,
        }
    }
}

/// The record that stands for "no position": owned by the ledger itself,
/// every number zero.
pub open spec fn sentinel(ledger: Seq<u8>) -> StakeModel {
    StakeModel {
        owner: ledger,
        total_staked: 0,
        last_staked: 0,
        reward_amount: 0,
        plan: 0,
        end_time: 0,
    }
}

impl StakeDetail {
    /// The record that stands for "no position" in the ledger `ledger`.
    pub fn sentinel(ledger: &Address) -> (r: StakeDetail)
        ensures
            r@ == sentinel(ledger@),
    {
        StakeDetail {
            owner: ledger.duplicate(),
            total_staked: 0,
            last_staked: 0,
            reward_amount: 0,
            plan: 0,
            end_time: 0,
        }
    }

    /// A second record with the same contents.
    pub fn duplicate(&self) -> (r: StakeDetail)
        ensures
            r@ == self@,
    {
        StakeDetail {
            owner: self.owner.duplicate(),
            total_staked: self.total_staked,
            last_staked: self.last_staked,
            reward_amount: self.reward_amount,
            plan: self.plan,
            end_time: self.end_time,
        }
    }
}

impl PartialEq for StakeDetail {
    fn eq(&self, other: &StakeDetail) -> (r: bool) {
        self.owner.same(&other.owner) && self.total_staked == other.total_staked
            && self.last_staked == other.last_staked && self.reward_amount
            == other.reward_amount && self.plan == other.plan && self.end_time == other.end_time
    }
}

impl vstd::std_specs::cmp::PartialEqSpecImpl for StakeDetail {
    open spec fn obeys_eq_spec() -> bool {
        true
    }

    open spec fn eq_spec(&self, other: &StakeDetail) -> bool {
        self@ == other@
    }
}

impl Clone for StakeDetail {
    fn clone(&self) -> (r: StakeDetail)
        ensures
            r@ == self@,
    {
        self.duplicate()
    }
}

/// A movement of `amount` units of `asset` from `from` to `to`, which the
/// host carries out for an operation that succeeded.
#[derive(Debug)]
pub struct Transfer {
    pub asset: Address,
    pub from: Address,
    pub to: Address,
    pub amount: i128,
}

/// The mathematical value of a [`Transfer`].
pub struct TransferModel {
    pub asset: Seq<u8>,
    pub from: Seq<u8>,
    pub to: Seq<u8>,
    pub amount: int,
}

impl View for Transfer {
    type V = TransferModel;

    open spec fn view(&self) -> TransferModel {
        TransferModel { asset: self.asset@, from: self.from@, to: self.to@, amount: self.amount as int }
    }
}

} // verus!
