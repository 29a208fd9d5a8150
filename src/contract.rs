//! The staking service: configuration, stake, unstake and reward.
use vstd::prelude::*;

use crate::address::Address;
use crate::detail::{sentinel, DataKey, Error, StakeDetail, StakeModel, Transfer, TransferModel};
use crate::ledger::StakeLedger;
use crate::plan::{end_time, is_valid_plan, reward_for, reward_of, term_of, valid_plan};

verus! {

/// The mathematical value of a [`StakingContract`].
pub struct ContractModel {
    /// The ledger's own identity, which holds the staked assets.
    pub contract: Seq<u8>,
    /// The asset in which rewards are paid, once configured.
    pub reward_token: Option<Seq<u8>>,
    /// The administrator, once configured.
    pub token_admin: Option<Seq<u8>>,
    /// The stored record of each account that has one.
    pub records: Map<Seq<u8>, StakeModel>,
}

impl ContractModel {
    /// Every state that the operations can reach: balances are never
    /// negative and the configuration is set as a whole.
    pub open spec fn wf(self) -> bool {
        &&& self.reward_token.is_some() == self.token_admin.is_some()
        &&& forall|k: Seq<u8>| #[trigger]
            self.records.contains_key(k) ==> self.records[k].total_staked >= 0
    }

    /// Whether the configuration was set.
    pub open spec fn initialized(self) -> bool {
        self.token_admin.is_some()
    }

    /// The record of `account`: the stored one, or the sentinel.
    pub open spec fn detail(self, account: Seq<u8>) -> StakeModel {
        if self.records.contains_key(account) {
            self.records[account]
        } else {
            sentinel(self.contract)
        }
    }

    /// Whether `account` holds a position, funded or not: its record is its
    /// own, and it is not the ledger itself, whose identity marks the
    /// sentinel.
    pub open spec fn has_position(self, account: Seq<u8>) -> bool {
        self.detail(account).owner == account && account != self.contract
    }

    /// The same state with `record` stored for `account`.
    pub open spec fn put(self, account: Seq<u8>, record: StakeModel) -> ContractModel {
        ContractModel { records: self.records.insert(account, record), ..self }
    }

    /// The outcome of setting the configuration.
    pub open spec fn initialize_step(self, reward_token: Seq<u8>, token_admin: Seq<u8>) -> Result<
        ContractModel,
        Error,
    > {
        if self.initialized() {
            Err(Error::AlreadyInitialized)
        } else {
            Ok(
                ContractModel {
                    reward_token: Some(reward_token),
                    token_admin: Some(token_admin),
                    ..self
                },
            )
        }
    }

    /// The record that a stake of `amount` on `plan` at time `now` leaves:
    /// the amount is added to a position of the same account and starts a
    /// fresh one otherwise; the lock always restarts at `now`.
    pub open spec fn stake_step(self, amount: int, account: Seq<u8>, plan: u64, now: u64) -> Result<
        StakeModel,
        Error,
    > {
        if !valid_plan(plan) {
            Err(Error::PlanNotExist)
        } else {
            let cur = self.detail(account);
            Ok(
                StakeModel {
                    owner: account,
                    total_staked: if cur.owner == account {
                        amount + cur.total_staked
                    } else {
                        amount
                    },
                    last_staked: amount,
                    reward_amount: 0,
                    plan,
                    end_time: (now + term_of(plan)) as u64,
                },
            )
        }
    }

    /// The inputs on which a stake can be carried out without overflow.
    pub open spec fn stake_fits(self, amount: int, account: Seq<u8>, plan: u64, now: u64) -> bool {
        &&& valid_plan(plan) ==> 0 <= amount
        &&& valid_plan(plan) ==> now + term_of(plan) <= u64::MAX
        &&& valid_plan(plan) ==> amount + self.detail(account).total_staked <= i128::MAX
    }

    /// The record that an unstake at time `now` leaves: the same record with
    /// nothing held, once the lock has expired.
    pub open spec fn unstake_step(self, account: Seq<u8>, now: u64) -> Result<StakeModel, Error> {
        let cur = self.detail(account);
        if !self.has_position(account) {
            Err(Error::StakeDetailNotExist)
        } else if now < cur.end_time {
            Err(Error::PlanNotFinished)
        } else {
            Ok(StakeModel { total_staked: 0, ..cur })
        }
    }

    /// The current record of a funded position and its flat reward.
    pub open spec fn reward_step(self, account: Seq<u8>) -> Result<(StakeModel, int), Error> {
        let cur = self.detail(account);
        if !self.has_position(account) {
            Err(Error::StakeDetailNotExist)
        } else if cur.total_staked == 0 {
            Err(Error::ZeroStake)
        } else {
            Ok((cur, reward_of(cur.plan)))
        }
    }
}

/// The staking service over its ledger and its one-time configuration.
pub struct StakingContract {
    contract: Address,
    reward_token: Option<Address>,
    token_admin: Option<Address>,
    ledger: StakeLedger,
}

impl View for StakingContract {
    type V = ContractModel;

    closed spec fn view(&self) -> ContractModel {
        ContractModel {
            contract: self.contract@,
            reward_token: match self.reward_token {
                Some(a) => Some(a@),
                None => None,
            },
            token_admin: match self.token_admin {
                Some(a) => Some(a@),
                None => None,
            },
            records: self.ledger@,
        }
    }
}

impl StakingContract {
    /// A service whose own identity is `contract`, not configured, with no
    /// record.
    pub fn new(contract: Address) -> (r: StakingContract)
        ensures
            r@.contract == contract@,
            r@.reward_token is None,
            r@.token_admin is None,
            r@.records == Map::<Seq<u8>, StakeModel>::empty(),
            r@.wf(),
    {
        StakingContract { contract, reward_token: None, token_admin: None, ledger: StakeLedger::new() }
    }

    /// The service's own identity, which holds the staked assets.
    pub fn contract_address(&self) -> (r: Address)
        ensures
            r@ == self@.contract,
    {
        self.contract.duplicate()
    }

    /// Whether the configuration entry `key` was set.
    pub fn has(&self, key: DataKey) -> (r: bool)
        ensures
            r == match key {
                DataKey::RewardToken => self@.reward_token.is_some(),
                DataKey::TokenAdmin => self@.token_admin.is_some(),
            },
    {
        match key {
            DataKey::RewardToken => self.reward_token.is_some(),
            DataKey::TokenAdmin => self.token_admin.is_some(),
        }
    }

    /// Set the reward asset and the administrator, once. A second call fails
    /// with `AlreadyInitialized` and changes nothing.
    pub fn initialize(&mut self, reward_token: Address, token_admin: Address) -> (r: Result<
        (),
        Error,
    >)
        requires
            old(self)@.wf(),
        ensures
            final(self)@.wf(),
            match old(self)@.initialize_step(reward_token@, token_admin@) {
                Ok(s) => r is Ok && final(self)@ == s,
                Err(e) => r == Err::<(), Error>(e) && final(self)@ == old(self)@,
            },
    {
        if self.has(DataKey::TokenAdmin) {
            return Err(Error::AlreadyInitialized);
        }
        self.reward_token = Some(reward_token);
        self.token_admin = Some(token_admin);
        Ok(())
    }

    /// Lock `amount` of `token_id` for `account` on the term `plan`, at time
    /// `now`. On success the account's new record is stored and returned
    /// with the service's identity and the movement of `amount` from the
    /// account into the service's custody. A term outside the catalogue
    /// fails with `PlanNotExist` and changes nothing.
    pub fn stake(
        &mut self,
        amount: i128,
        account: Address,
        plan: u64,
        token_id: Address,
        now: u64,
    ) -> (r: Result<(StakeDetail, Address, Transfer), Error>)
        requires
            old(self)@.wf(),
            old(self)@.stake_fits(amount as int, account@, plan, now),
        ensures
            final(self)@.wf(),
            match old(self)@.stake_step(amount as int, account@, plan, now) {
                Ok(d) => r matches Ok((rd, rc, rt)) && rd@ == d && rc@ == old(self)@.contract
                    && rt@ == (TransferModel {
                    asset: token_id@,
                    from: account@,
                    to: old(self)@.contract,
                    amount: amount as int,
                }) && final(self)@ == old(self)@.put(account@, d),
                Err(e) => r matches Err(re) && re == e && final(self)@ == old(self)@,
            },
    {
        if !is_valid_plan(plan) {
            return Err(Error::PlanNotExist);
        }
        let end = end_time(now, plan);
        let current = self.get_stake_detail(&account);
        let total_staked = if current.owner.same(&account) {
            amount + current.total_staked
        } else {
            amount
        };
        let detail = StakeDetail {
            owner: account.duplicate(),
            total_staked,
            last_staked: amount,
            reward_amount: 0,
            plan,
            end_time: end,
        };
        let transfer = Transfer {
            asset: token_id,
            from: account.duplicate(),
            to: self.contract.duplicate(),
            amount,
        };
        self.ledger.put(account, detail.duplicate());
        Ok((detail, self.contract.duplicate(), transfer))
    }

    /// Release the position of `account` once its lock has expired at time
    /// `now`: the record is kept with nothing held, and the whole amount moves
    /// from custody back to the account. Fails with `StakeDetailNotExist`
    /// where there is no position and with `PlanNotFinished` before the end
    /// of the lock, changing nothing.
    pub fn unstake(&mut self, account: Address, token_id: Address, now: u64) -> (r: Result<
        (StakeDetail, Transfer),
        Error,
    >)
        requires
            old(self)@.wf(),
        ensures
            final(self)@.wf(),
            match old(self)@.unstake_step(account@, now) {
                Ok(d) => r matches Ok((rd, rt)) && rd@ == d && rt@ == (TransferModel {
                    asset: token_id@,
                    from: old(self)@.contract,
                    to: account@,
                    amount: old(self)@.detail(account@).total_staked,
                }) && final(self)@ == old(self)@.put(account@, d),
                Err(e) => r matches Err(re) && re == e && final(self)@ == old(self)@,
            },
    {
        let mut detail = self.get_stake_detail(&account);
        if !detail.owner.same(&account) || account.same(&self.contract) {
            return Err(Error::StakeDetailNotExist);
        }
        if now < detail.end_time {
            return Err(Error::PlanNotFinished);
        }
        let transfer = Transfer {
            asset: token_id,
            from: self.contract.duplicate(),
            to: account.duplicate(),
            amount: detail.total_staked,
        };
        detail.total_staked = 0;
        self.ledger.put(account, detail.duplicate());
        Ok((detail, transfer))
    }

    /// The current record of a funded position of `account` and its flat
    /// reward. Fails with `StakeDetailNotExist` where there is no position
    /// and with `ZeroStake` where it holds nothing.
    pub fn calculate_reward(&self, account: &Address) -> (r: Result<(StakeDetail, i128), Error>)
        ensures
            match self@.reward_step(account@) {
                Ok((d, w)) => r matches Ok((rd, rw)) && rd@ == d && rw == w,
                Err(e) => r matches Err(re) && re == e,
            },
    {
        let detail = self.get_stake_detail(account);
        if !detail.owner.same(account) || account.same(&self.contract) {
            return Err(Error::StakeDetailNotExist);
        }
        if detail.total_staked == 0 {
            return Err(Error::ZeroStake);
        }
        let reward = reward_for(detail.plan);
        Ok((detail, reward))
    }

    /// Pay the flat reward of the position of `account` from custody and
    /// clear its record back to the sentinel. Returns the record as it stood
    /// and the reward, with the movement of the reward asset. Fails as
    /// [`StakingContract::calculate_reward`] does, changing nothing.
    pub fn claim_reward(&mut self, account: Address) -> (r: Result<
        (StakeDetail, i128, Transfer),
        Error,
    >)
        requires
            old(self)@.wf(),
            old(self)@.reward_step(account@) is Ok ==> old(self)@.initialized(),
        ensures
            final(self)@.wf(),
            match old(self)@.reward_step(account@) {
                Ok((d, w)) => r matches Ok((rd, rw, rt)) && rd@ == d && rw == w && rt@ == (
                TransferModel {
                    asset: old(self)@.reward_token.unwrap(),
                    from: old(self)@.contract,
                    to: account@,
                    amount: w,
                }) && final(self)@ == old(self)@.put(account@, sentinel(old(self)@.contract)),
                Err(e) => r matches Err(re) && re == e && final(self)@ == old(self)@,
            },
    {
        let (detail, reward) = match self.calculate_reward(&account) {
            Ok(found) => found,
            Err(e) => {
                return Err(e);
            },
        };
        let transfer = Transfer {
            asset: self.get_reward_token(),
            from: self.contract.duplicate(),
            to: account.duplicate(),
            amount: reward,
        };
        let cleared = StakeDetail::sentinel(&self.contract);
        self.ledger.put(account, cleared);
        Ok((detail, reward, transfer))
    }

    /// The record of `account`: the stored one, or the sentinel where none
    /// was ever stored.
    pub fn get_stake_detail(&self, account: &Address) -> (r: StakeDetail)
        ensures
            r@ == self@.detail(account@),
    {
        match self.ledger.get(account) {
            Some(d) => d,
            None => StakeDetail::sentinel(&self.contract),
        }
    }

    /// The configured reward asset.
    pub fn get_reward_token(&self) -> (r: Address)
        requires
            self@.wf(),
            self@.initialized(),
        ensures
            r@ == self@.reward_token.unwrap(),
    {
        match &self.reward_token {
            Some(a) => a.duplicate(),
            None => {
                proof {
                    assert(false);
                }
                self.contract.duplicate()
            },
        }
    }

    /// Store `record` for `account` as it is, as a store of records does
    /// when a service resumes from what it persisted.
    pub fn put_stake_detail(&mut self, account: Address, record: StakeDetail)
        requires
            old(self)@.wf(),
            record.total_staked >= 0,
        ensures
            final(self)@.wf(),
            final(self)@ == old(self)@.put(account@, record@),
    {
        self.ledger.put(account, record);
    }
}

} // verus!
