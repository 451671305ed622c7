use peerset_protocol::pool_mock::{
    add_to_restrict_list, default_bonded_account, default_reward_account, generate_bonded_account,
    generate_reward_account, pool_pending_rewards, remove_from_restrict_list, reward_imbalance,
    Balance, BalanceToU256, ExtBuilder, Perbill, RestrictMock, RewardImbalance, U256,
    U256ToBalance,
};

#[test]
fn u256_to_balance_convert_works() {
    assert_eq!(U256ToBalance::convert(U256::from_u128(0)), 0);
    assert_eq!(U256ToBalance::convert(U256::from_u128(Balance::MAX)), Balance::MAX);
}

#[test]
fn balance_to_u256_convert_works() {
    assert_eq!(BalanceToU256::convert(0), U256::from_u128(0));
    assert_eq!(BalanceToU256::convert(Balance::MAX), U256::from_u128(Balance::MAX));
}

#[test]
fn pool_accounts_are_distinct() {
    assert_ne!(default_bonded_account(), default_reward_account());
    assert_ne!(generate_bonded_account(1), generate_bonded_account(2));
    assert_ne!(generate_reward_account(1), generate_reward_account(2));
    assert_ne!(generate_bonded_account(3), generate_reward_account(3));
    assert_eq!(default_bonded_account(), generate_bonded_account(1));
    assert_eq!(default_reward_account(), generate_reward_account(1));
}

#[test]
fn reward_imbalance_classifies_difference() {
    assert_eq!(reward_imbalance(10, 4), RewardImbalance::Deficit(6));
    assert_eq!(reward_imbalance(4, 10), RewardImbalance::Surplus(6));
    assert_eq!(reward_imbalance(7, 7), RewardImbalance::Surplus(0));
}

#[test]
fn ext_builder_defaults_and_setters() {
    let base = ExtBuilder::default();
    assert!(base.members.is_empty());
    assert_eq!(base.max_members, Some(4));
    assert_eq!(base.max_members_per_pool, Some(3));
    assert_eq!(base.global_max_commission, Some(Perbill::from_percent(90)));
    assert_eq!(base.existential_deposit, 5);
    assert_eq!(base.min_bond, 10);
    assert_eq!(base.min_join_bond, 2);
    assert_eq!(base.check_level, 255);

    let configured = ExtBuilder::default()
        .add_members(vec![(20, 20)])
        .ed(1)
        .min_bond(2)
        .min_join_bond(3)
        .with_check(0)
        .max_members(None)
        .max_members_per_pool(Some(5))
        .global_max_commission(None);
    assert_eq!(configured.members, vec![(20, 20)]);
    assert_eq!(configured.existential_deposit, 1);
    assert_eq!(configured.min_bond, 2);
    assert_eq!(configured.min_join_bond, 3);
    assert_eq!(configured.check_level, 0);
    assert_eq!(configured.max_members, None);
    assert_eq!(configured.max_members_per_pool, Some(5));
    assert_eq!(configured.global_max_commission, None);
}

#[test]
fn restrict_list_membership() {
    let mut restrict = RestrictMock::new();
    assert!(!restrict.contains(&7));
    add_to_restrict_list(&mut restrict, &7);
    assert!(restrict.contains(&7));
    // adding twice keeps a single entry, so one removal clears it
    add_to_restrict_list(&mut restrict, &7);
    add_to_restrict_list(&mut restrict, &8);
    remove_from_restrict_list(&mut restrict, &7);
    assert!(!restrict.contains(&7));
    assert!(restrict.contains(&8));
    remove_from_restrict_list(&mut restrict, &9);
    assert!(restrict.contains(&8));
}

#[test]
fn pool_pending_rewards_sums_with_saturation() {
    assert_eq!(pool_pending_rewards(&vec![]), 0);
    assert_eq!(pool_pending_rewards(&vec![1, 2, 3]), 6);
    assert_eq!(pool_pending_rewards(&vec![Balance::MAX, 1]), Balance::MAX);
    assert_eq!(pool_pending_rewards(&vec![Balance::MAX - 1, 1]), Balance::MAX);
}
