//! Properties of the service that relate several operations.
use vstd::prelude::*;

use crate::contract::ContractModel;
use crate::detail::{sentinel, Error, StakeModel};
use crate::plan::{reward_of, term_of, valid_plan};

verus! {

/// An account for which nothing was ever stored reads as the sentinel, and
/// unstaking, computing or claiming its reward fails with
/// `StakeDetailNotExist`.
pub proof fn lemma_unknown_account_has_no_position(s: ContractModel, account: Seq<u8>, now: u64)
    requires
        !s.records.contains_key(account),
    ensures
        s.detail(account) == sentinel(s.contract),
        !s.has_position(account),
        s.unstake_step(account, now) == Err::<StakeModel, Error>(
            Error::StakeDetailNotExist,
        ),
        s.reward_step(account) matches Err(e) && e == Error::StakeDetailNotExist,
{
}

/// A second stake by the same account adds its amount to what the first left,
/// records it as the latest amount, and restarts the lock from the second
/// call's time on the second call's term. An account without a position
/// (and other than the ledger itself) starts from the first amount alone.
pub proof fn lemma_repeated_stake_accumulates(
    s: ContractModel,
    account: Seq<u8>,
    first: int,
    first_plan: u64,
    first_now: u64,
    second: int,
    second_plan: u64,
    second_now: u64,
)
    requires
        valid_plan(first_plan),
        valid_plan(second_plan),
        first_now + term_of(first_plan) <= u64::MAX,
        second_now + term_of(second_plan) <= u64::MAX,
    ensures
        s.stake_step(first, account, first_plan, first_now) matches Ok(d1) && s.put(
            account,
            d1,
        ).stake_step(second, account, second_plan, second_now) matches Ok(d2)
            && d2.total_staked == second + d1.total_staked && d2.last_staked == second
            && d2.plan == second_plan && d2.end_time == second_now + term_of(second_plan)
            && (account != s.contract && !s.has_position(account) ==> d1.total_staked == first),
{
}

/// A term outside the catalogue is refused with `PlanNotExist`, whatever the
/// amount, the account and the time.
pub proof fn lemma_unknown_plan_rejected(
    s: ContractModel,
    amount: int,
    account: Seq<u8>,
    plan: u64,
    now: u64,
)
    requires
        !valid_plan(plan),
    ensures
        s.stake_step(amount, account, plan, now) == Err::<StakeModel, Error>(Error::PlanNotExist),
{
}

/// A position can be unstaked exactly from the end of its lock on: before,
/// the attempt fails with `PlanNotFinished`; at or after, the record is kept
/// with nothing held, every other field unchanged.
pub proof fn lemma_unstake_follows_lock(s: ContractModel, account: Seq<u8>, now: u64)
    requires
        s.has_position(account),
    ensures
        now < s.detail(account).end_time ==> s.unstake_step(account, now) == Err::<
            StakeModel,
            Error,
        >(Error::PlanNotFinished),
        now >= s.detail(account).end_time ==> s.unstake_step(account, now) == Ok::<
            StakeModel,
            Error,
        >(StakeModel { total_staked: 0, ..s.detail(account) }),
{
}

/// After a stake of a positive amount, claiming pays the term's flat reward,
/// whatever the amount, and leaves the sentinel behind.
pub proof fn lemma_claim_after_stake_pays_flat_reward(
    s: ContractModel,
    account: Seq<u8>,
    amount: int,
    plan: u64,
    now: u64,
)
    requires
        s.wf(),
        account != s.contract,
        0 < amount,
        valid_plan(plan),
        now + term_of(plan) <= u64::MAX,
    ensures
        s.stake_step(amount, account, plan, now) matches Ok(d) && s.put(account, d).reward_step(
            account,
        ) matches Ok((rd, w)) && rd == d && w == reward_of(plan) && (plan == 7 ==> w == 14) && (
        plan == 14 ==> w == 28) && (plan == 30 ==> w == 60) && s.put(account, d).put(
            account,
            sentinel(s.contract),
        ).detail(account) == sentinel(s.contract),
{
    let cur = s.detail(account);
    if s.records.contains_key(account) {
        assert(cur.total_staked >= 0);
    }
}

/// A position that holds nothing earns no reward: one opened with a zero
/// amount, and one already unstaked, both fail with `ZeroStake`.
pub proof fn lemma_empty_position_earns_nothing(
    s: ContractModel,
    account: Seq<u8>,
    plan: u64,
    now: u64,
    later: u64,
)
    requires
        account != s.contract,
        !s.has_position(account),
        valid_plan(plan),
        now + term_of(plan) <= u64::MAX,
    ensures
        s.stake_step(0, account, plan, now) matches Ok(d) && s.put(account, d).reward_step(account)
            matches Err(e) && e == Error::ZeroStake,
        s.unstake_step(account, later) matches Ok(u) ==> s.put(account, u).reward_step(account)
            matches Err(e) && e == Error::ZeroStake,
{
}

/// The configuration is set at most once: the first call on a fresh service
/// succeeds, and every later call fails with `AlreadyInitialized`, whatever
/// its arguments.
pub proof fn lemma_initialize_once(
    s: ContractModel,
    reward_token: Seq<u8>,
    token_admin: Seq<u8>,
    other_token: Seq<u8>,
    other_admin: Seq<u8>,
)
    ensures
        !s.initialized() ==> s.initialize_step(reward_token, token_admin) is Ok,
        s.initialize_step(reward_token, token_admin) matches Ok(t) ==> t.initialize_step(
            other_token,
            other_admin,
        ) == Err::<ContractModel, Error>(Error::AlreadyInitialized),
{
}

} // verus!
