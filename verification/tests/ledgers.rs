use peerset_protocol::delegate_mock::DelegateMock;
use peerset_protocol::pool_mock::{
    generate_bonded_account, member_delegation, pool_balance, set_pool_balance, MockError,
};
use peerset_protocol::staking_mock::{StakerStatus, StakingMock, Stake};

#[test]
fn bonding_and_stake_queries() {
    let mut staking = StakingMock::new();
    assert_eq!(staking.stake(1), Err(MockError::BalanceNotFound));

    staking.set_bonded_balance(1, 100);
    assert_eq!(staking.stake(1), Ok(Stake { total: 100, active: 100 }));

    assert!(staking.bond_extra(1, 50).is_ok());
    assert_eq!(staking.stake(1), Ok(Stake { total: 150, active: 150 }));

    // bond replaces the bonded balance outright
    assert!(staking.bond(2, 70, &999).is_ok());
    assert_eq!(staking.stake(2), Ok(Stake { total: 70, active: 70 }));
}

#[test]
fn unbonding_moves_funds_through_eras() {
    let mut staking = StakingMock::new();
    let mut delegate = DelegateMock::new();
    staking.set_bonded_balance(1, 100);
    delegate.set_agent_balance(1, 100);

    // era 0, duration 3: the chunk unlocks at era 3
    assert!(staking.unbond(1, 40).is_ok());
    assert_eq!(staking.stake(1), Ok(Stake { total: 100, active: 60 }));

    // nothing is withdrawable before the unlock era
    assert_eq!(staking.withdraw_unbonded(&mut delegate, 1, 0), Ok(false));
    assert_eq!(staking.stake(1), Ok(Stake { total: 100, active: 60 }));

    staking.set_current_era(3);
    assert!(staking.unbond(1, 60).is_ok());

    staking.set_current_era(4);
    // the first chunk (era 3) is released, the second (era 6) stays
    assert_eq!(staking.withdraw_unbonded(&mut delegate, 1, 0), Ok(false));
    assert_eq!(staking.stake(1), Ok(Stake { total: 60, active: 0 }));
    assert_eq!(delegate.agent_transferable_balance(1), Some(40));

    staking.set_current_era(7);
    assert_eq!(staking.withdraw_unbonded(&mut delegate, 1, 0), Ok(true));
    assert_eq!(delegate.agent_transferable_balance(1), Some(100));

    assert_eq!(staking.withdraw_unbonded(&mut delegate, 2, 0), Err(MockError::NothingToUnbond));
}

#[test]
fn unbond_saturates_at_zero() {
    let mut staking = StakingMock::new();
    staking.set_bonded_balance(1, 10);
    assert!(staking.unbond(1, 25).is_ok());
    assert_eq!(staking.stake(1), Ok(Stake { total: 25, active: 0 }));
}

#[test]
fn nominations_and_status() {
    let mut staking = StakingMock::new();
    assert_eq!(staking.nominations(&1), None);
    match staking.status(&1) {
        Err(MockError::NotStash) => {},
        other => panic!("expected NotStash, got {:?}", other),
    }

    assert!(staking.nominate(&1, vec![10, 20]).is_ok());
    assert_eq!(staking.nominations(&1), Some(vec![10, 20]));
    match staking.status(&1) {
        Ok(StakerStatus::Nominator(noms)) => assert_eq!(noms, vec![10, 20]),
        other => panic!("expected a nominator, got {:?}", other),
    }
}

#[test]
fn ledger_configuration_reads() {
    let mut staking = StakingMock::new();
    assert_eq!(staking.minimum_nominator_bond(), 10);
    assert_eq!(staking.minimum_validator_bond(), 10);
    assert_eq!(staking.current_era(), 0);
    assert_eq!(staking.bonding_duration(), 3);
    staking.set_min_bond(25);
    assert_eq!(staking.minimum_nominator_bond(), 25);
    assert!(StakingMock::chill(&1).is_ok());
}

#[test]
fn delegation_lifecycle() {
    let mut staking = StakingMock::new();
    let mut delegate = DelegateMock::new();

    assert_eq!(
        delegate.delegate(&mut staking, 5, 99, 10),
        Err(MockError::AgentNotRegistered),
    );
    // the delegator's balance grew before the agent lookup failed
    assert_eq!(delegate.delegator_balance(5), Some(10));

    assert!(delegate.register_agent(99, &901).is_ok());
    assert!(delegate.contains_agent(99));
    assert!(staking.is_virtual_staker(&delegate, &99));
    assert_eq!(delegate.agent_balance(99), Some(0));

    assert!(delegate.delegate(&mut staking, 5, 99, 10).is_ok());
    assert_eq!(delegate.delegator_balance(5), Some(20));
    assert_eq!(delegate.agent_balance(99), Some(10));
    // the delegated amount was bonded for the agent
    assert_eq!(staking.stake(99), Ok(Stake { total: 10, active: 10 }));

    assert!(delegate.delegate(&mut staking, 5, 99, 5).is_ok());
    assert_eq!(staking.stake(99), Ok(Stake { total: 15, active: 15 }));

    assert!(delegate.remove_agent(99).is_ok());
    assert!(!delegate.contains_agent(99));
}

#[test]
fn withdrawals_and_slashes() {
    let mut delegate = DelegateMock::new();
    delegate.set_agent_balance(99, 100);
    delegate.set_delegator_balance(5, 60);

    assert!(delegate.withdraw_delegation(5, 99, 0, 0).is_ok());
    assert_eq!(delegate.delegator_balance(5), Some(60));

    delegate.on_slash(99, 30);
    assert_eq!(delegate.pending_slash(99), Some(30));
    assert_eq!(delegate.agent_balance(99), Some(70));

    assert!(delegate.delegator_slash(99, 5, 20, None).is_ok());
    assert_eq!(delegate.delegator_balance(5), Some(40));
    assert_eq!(delegate.pending_slash(99), Some(10));

    // the pending slash saturates at zero
    assert!(delegate.delegator_slash(99, 5, 40, None).is_ok());
    assert_eq!(delegate.pending_slash(99), Some(0));
    assert_eq!(delegate.delegator_balance(5), Some(0));
}

#[test]
fn slash_by_reduces_pool_funds() {
    let mut staking = StakingMock::new();
    let mut delegate = DelegateMock::new();
    let pool_account = generate_bonded_account(1);

    set_pool_balance(&mut staking, &mut delegate, pool_account, 100);
    assert_eq!(pool_balance(&delegate, 1), 100);

    staking.slash_by(&mut delegate, 1, 30);
    assert_eq!(staking.stake(pool_account), Ok(Stake { total: 70, active: 70 }));
    assert_eq!(delegate.pending_slash(pool_account), Some(30));
    assert_eq!(pool_balance(&delegate, 1), 70);
}

#[test]
fn member_delegation_reads_the_ledger() {
    let mut delegate = DelegateMock::new();
    delegate.set_delegator_balance(21, 12);
    assert_eq!(member_delegation(&delegate, 21), 12);
}
