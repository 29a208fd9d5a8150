use staking::{
    end_time, is_valid_plan, reward_for, term_seconds, Address, DataKey, Error, StakeDetail,
    StakeLedger, StakingContract, Transfer, SECONDS_PER_DAY,
};

const DAY: u64 = 24 * 60 * 60;
const START: u64 = 1_700_000_000;

fn addr(name: &str) -> Address {
    Address::from_bytes(name.as_bytes().to_vec())
}

fn service() -> StakingContract {
    let mut s = StakingContract::new(addr("ledger"));
    assert_eq!(s.initialize(addr("reward"), addr("admin")), Ok(()));
    s
}

fn custody_of(transfers: &[Transfer], asset: &Address, holder: &Address) -> i128 {
    let mut total: i128 = 0;
    for t in transfers {
        if &t.asset == asset {
            if &t.to == holder {
                total += t.amount;
            }
            if &t.from == holder {
                total -= t.amount;
            }
        }
    }
    total
}

#[test]
fn test_all_stakes() {
    let mut s = service();
    let staker = addr("staker1");
    let token = addr("stake_token");
    let stake_amount: i128 = 100;
    let plan: u64 = 7;
    let mut moves = Vec::new();
    let (_, contract_address, t) =
        s.stake(stake_amount, staker.clone(), plan, token.clone(), START).unwrap();
    moves.push(t);
    let (_, _, t) = s.stake(stake_amount, staker.clone(), plan, token.clone(), START).unwrap();
    moves.push(t);
    let expected = StakeDetail {
        owner: staker.clone(),
        total_staked: stake_amount + stake_amount,
        last_staked: stake_amount,
        reward_amount: 0,
        plan,
        end_time: START + plan * DAY,
    };
    let detail = s.get_stake_detail(&staker);
    assert_eq!(expected, detail);
    assert_eq!(custody_of(&moves, &token, &contract_address), detail.total_staked);
}

#[test]
fn catalogue_terms_and_rewards() {
    assert!(is_valid_plan(7) && is_valid_plan(14) && is_valid_plan(30));
    assert!(!is_valid_plan(0) && !is_valid_plan(10) && !is_valid_plan(31));
    assert_eq!(SECONDS_PER_DAY, 86400);
    assert_eq!(term_seconds(7), 604800);
    assert_eq!(term_seconds(14), 1209600);
    assert_eq!(term_seconds(30), 2592000);
    assert_eq!(reward_for(7), 14);
    assert_eq!(reward_for(14), 28);
    assert_eq!(reward_for(30), 60);
    assert_eq!(reward_for(10), 0);
    assert_eq!(end_time(1000, 14), 1000 + 14 * DAY);
}

#[test]
fn unknown_account_reads_sentinel_and_has_no_position() {
    let mut s = service();
    let a = addr("nobody");
    let d = s.get_stake_detail(&a);
    assert_eq!(d, StakeDetail::sentinel(&addr("ledger")));
    assert_eq!(d.owner, s.contract_address());
    assert_eq!(s.calculate_reward(&a).unwrap_err(), Error::StakeDetailNotExist);
    assert_eq!(s.unstake(a.clone(), addr("x"), START).unwrap_err(), Error::StakeDetailNotExist);
    assert_eq!(s.claim_reward(a.clone()).unwrap_err(), Error::StakeDetailNotExist);
}

#[test]
fn second_stake_accumulates_and_restarts_lock() {
    let mut s = service();
    let a = addr("a");
    s.stake(100, a.clone(), 7, addr("x"), START).unwrap();
    let later = START + 3 * DAY;
    let (d, _, t) = s.stake(50, a.clone(), 7, addr("x"), later).unwrap();
    assert_eq!(d.total_staked, 150);
    assert_eq!(d.last_staked, 50);
    assert_eq!(d.end_time, later + 7 * DAY);
    assert_eq!(t.amount, 50);
    assert_eq!(s.get_stake_detail(&a), d);
}

#[test]
fn unknown_plan_is_rejected_without_change() {
    let mut s = service();
    let a = addr("a");
    assert_eq!(s.stake(100, a.clone(), 10, addr("x"), START).unwrap_err(), Error::PlanNotExist);
    assert_eq!(s.get_stake_detail(&a), StakeDetail::sentinel(&addr("ledger")));
    s.stake(100, a.clone(), 7, addr("x"), START).unwrap();
    let before = s.get_stake_detail(&a);
    assert_eq!(s.stake(5, a.clone(), 10, addr("x"), START + 1).unwrap_err(), Error::PlanNotExist);
    assert_eq!(s.get_stake_detail(&a), before);
}

#[test]
fn early_unstake_fails() {
    let mut s = service();
    let a = addr("a");
    s.stake(100, a.clone(), 14, addr("x"), START).unwrap();
    let before = s.get_stake_detail(&a);
    let r = s.unstake(a.clone(), addr("x"), START + 14 * DAY - 1);
    assert_eq!(r.unwrap_err(), Error::PlanNotFinished);
    assert_eq!(s.get_stake_detail(&a), before);
}

#[test]
fn unstake_at_end_returns_principal() {
    let mut s = service();
    let a = addr("a");
    let x = addr("x");
    let ledger = s.contract_address();
    let (_, _, t) = s.stake(250, a.clone(), 30, x.clone(), START).unwrap();
    let (d, back) = s.unstake(a.clone(), x.clone(), START + 30 * DAY).unwrap();
    assert_eq!(back.amount, 250);
    assert_eq!(back.from, ledger);
    assert_eq!(back.to, a);
    assert_eq!(back.asset, x);
    assert_eq!(d.total_staked, 0);
    assert_eq!(d.owner, a);
    assert_eq!(d.plan, 30);
    assert_eq!(d.end_time, START + 30 * DAY);
    assert_eq!(custody_of(&[t, back], &x, &ledger), 0);
    assert_eq!(s.get_stake_detail(&a), d);
}

#[test]
fn claim_pays_flat_reward_per_plan() {
    for (plan, reward, amount) in [(7u64, 14i128, 1i128), (14, 28, 1000), (30, 60, 5)] {
        let mut s = service();
        let a = addr("a");
        s.stake(amount, a.clone(), plan, addr("x"), START).unwrap();
        let (d, w) = s.calculate_reward(&a).unwrap();
        assert_eq!(w, reward);
        assert_eq!(d.total_staked, amount);
        let (d2, w2, t) = s.claim_reward(a.clone()).unwrap();
        assert_eq!(d2, d);
        assert_eq!(w2, reward);
        assert_eq!(t.amount, reward);
        assert_eq!(t.asset, addr("reward"));
        assert_eq!(t.to, a);
        assert_eq!(s.get_stake_detail(&a), StakeDetail::sentinel(&addr("ledger")));
        assert_eq!(s.calculate_reward(&a).unwrap_err(), Error::StakeDetailNotExist);
    }
}

#[test]
fn empty_positions_fail_with_zero_stake() {
    let mut s = service();
    let a = addr("a");
    s.stake(0, a.clone(), 7, addr("x"), START).unwrap();
    assert_eq!(s.calculate_reward(&a).unwrap_err(), Error::ZeroStake);
    assert_eq!(s.claim_reward(a.clone()).unwrap_err(), Error::ZeroStake);

    let b = addr("b");
    s.stake(40, b.clone(), 7, addr("x"), START).unwrap();
    s.unstake(b.clone(), addr("x"), START + 7 * DAY).unwrap();
    assert_eq!(s.calculate_reward(&b).unwrap_err(), Error::ZeroStake);
    assert_eq!(s.claim_reward(b.clone()).unwrap_err(), Error::ZeroStake);
    assert_eq!(s.get_stake_detail(&b).owner, b);
}

#[test]
fn initialize_succeeds_once() {
    let mut s = StakingContract::new(addr("ledger"));
    assert!(!s.has(DataKey::TokenAdmin));
    assert!(!s.has(DataKey::RewardToken));
    assert_eq!(s.initialize(addr("reward"), addr("admin")), Ok(()));
    assert!(s.has(DataKey::TokenAdmin) && s.has(DataKey::RewardToken));
    assert_eq!(s.get_reward_token(), addr("reward"));
    assert_eq!(s.initialize(addr("reward"), addr("admin")), Err(Error::AlreadyInitialized));
    assert_eq!(s.initialize(addr("other"), addr("someone")), Err(Error::AlreadyInitialized));
    assert_eq!(s.get_reward_token(), addr("reward"));
}

#[test]
fn stake_unstake_claim_end_to_end() {
    let mut s = service();
    let a = addr("a");
    let x = addr("x");
    let ledger = s.contract_address();
    let day0 = START;
    let mut moves = Vec::new();
    let (d, _, t) = s.stake(100, a.clone(), 7, x.clone(), day0).unwrap();
    assert_eq!(d.end_time, day0 + 7 * DAY);
    moves.push(t);

    assert_eq!(s.unstake(a.clone(), x.clone(), day0 + 5 * DAY).unwrap_err(), Error::PlanNotFinished);
    assert_eq!(custody_of(&moves, &x, &ledger), 100);

    let (d, t) = s.unstake(a.clone(), x.clone(), day0 + 7 * DAY).unwrap();
    assert_eq!(t.to, a);
    assert_eq!(t.amount, 100);
    assert_eq!(d.total_staked, 0);
    moves.push(t);
    assert_eq!(custody_of(&moves, &x, &ledger), 0);
    assert_eq!(custody_of(&moves, &x, &a), 0);

    // The unstaked position holds nothing, so no reward is owed on it.
    assert_eq!(s.claim_reward(a.clone()).unwrap_err(), Error::ZeroStake);
}

#[test]
fn claim_before_unstake_clears_funded_record() {
    let mut s = service();
    let a = addr("a");
    s.stake(100, a.clone(), 7, addr("x"), START).unwrap();
    let (d, w, _) = s.claim_reward(a.clone()).unwrap();
    assert_eq!(d.total_staked, 100);
    assert_eq!(w, 14);
    assert_eq!(s.get_stake_detail(&a), StakeDetail::sentinel(&addr("ledger")));
    assert_eq!(s.unstake(a.clone(), addr("x"), START + 8 * DAY).unwrap_err(), Error::StakeDetailNotExist);
    let (d, _, _) = s.stake(30, a.clone(), 14, addr("x"), START + 9 * DAY).unwrap();
    assert_eq!(d.total_staked, 30);
}

#[test]
fn ledger_last_write_wins() {
    let mut l = StakeLedger::new();
    let a = addr("a");
    assert!(l.get(&a).is_none());
    let mut r = StakeDetail::sentinel(&a);
    r.total_staked = 5;
    l.put(a.clone(), r.clone());
    l.put(addr("b"), StakeDetail::sentinel(&addr("b")));
    assert_eq!(l.get(&a), Some(r.clone()));
    r.total_staked = 9;
    l.put(a.clone(), r.clone());
    assert_eq!(l.get(&a).unwrap().total_staked, 9);
    assert_eq!(l.get(&addr("b")).unwrap().total_staked, 0);
}

#[test]
fn addresses_compare_by_bytes() {
    let a = addr("GABC");
    assert_eq!(a.to_bytes(), b"GABC".to_vec());
    assert!(a.same(&a.duplicate()));
    assert!(!a.same(&addr("GABD")));
    assert!(!a.same(&addr("GAB")));
}

#[test]
fn put_stake_detail_restores_a_record() {
    let mut s = service();
    let a = addr("a");
    let rec = StakeDetail {
        owner: a.clone(),
        total_staked: 70,
        last_staked: 70,
        reward_amount: 0,
        plan: 30,
        end_time: START,
    };
    s.put_stake_detail(a.clone(), rec.clone());
    assert_eq!(s.get_stake_detail(&a), rec);
    assert_eq!(s.calculate_reward(&a).unwrap().1, 60);
}

#[test]
fn record_owned_by_another_is_no_position() {
    let mut s = service();
    let a = addr("a");
    let rec = StakeDetail {
        owner: addr("b"),
        total_staked: 100,
        last_staked: 100,
        reward_amount: 0,
        plan: 7,
        end_time: START,
    };
    s.put_stake_detail(a.clone(), rec.clone());
    assert_eq!(s.unstake(a.clone(), addr("x"), START + DAY).unwrap_err(), Error::StakeDetailNotExist);
    assert_eq!(s.calculate_reward(&a).unwrap_err(), Error::StakeDetailNotExist);
    assert_eq!(s.claim_reward(a.clone()).unwrap_err(), Error::StakeDetailNotExist);
    assert_eq!(s.get_stake_detail(&a), rec);
}

#[test]
fn ledger_identity_never_holds_a_position() {
    let mut s = service();
    let me = s.contract_address();
    s.stake(100, me.clone(), 7, addr("x"), START).unwrap();
    assert_eq!(s.unstake(me.clone(), addr("x"), START + 7 * DAY).unwrap_err(), Error::StakeDetailNotExist);
    assert_eq!(s.calculate_reward(&me).unwrap_err(), Error::StakeDetailNotExist);
}

#[test]
fn claim_failures_need_no_configuration() {
    let mut s = StakingContract::new(addr("ledger"));
    let a = addr("a");
    assert_eq!(s.claim_reward(a.clone()).unwrap_err(), Error::StakeDetailNotExist);
    s.stake(0, a.clone(), 7, addr("x"), START).unwrap();
    assert_eq!(s.claim_reward(a.clone()).unwrap_err(), Error::ZeroStake);
    let b = addr("b");
    s.stake(10, b.clone(), 14, addr("x"), START).unwrap();
    s.unstake(b.clone(), addr("x"), START + 14 * DAY).unwrap();
    assert_eq!(s.claim_reward(b.clone()).unwrap_err(), Error::ZeroStake);
    assert_eq!(s.get_stake_detail(&b).total_staked, 0);
}

#[test]
fn unknown_plan_wins_over_negative_amount() {
    let mut s = service();
    assert_eq!(s.stake(-5, addr("a"), 10, addr("x"), START).unwrap_err(), Error::PlanNotExist);
}
