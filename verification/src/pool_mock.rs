//! A deterministic in-memory environment for exercising nomination-pool
//! accounting: pool account derivation, configuration building, balance
//! conversions and a restrict list.  The staking and delegation ledgers live
//! in their own modules.

use vstd::prelude::*;

use crate::delegate_mock::DelegateMock;
use crate::staking_mock::StakingMock;

verus! {

/// Block number of the mock runtime.
pub type BlockNumber = u64;

/// Account identifier of the mock runtime.
pub type AccountId = u128;

/// Balance of the mock runtime.
pub type Balance = u128;

/// Era counter of the staking ledger.
pub type EraIndex = u32;

/// Identifier of a nomination pool.
pub type PoolId = u32;

/// The errors the mock ledgers report, one per failing operation.
#[derive(Debug, Clone, Copy, PartialEq, Eq, Structural)]
pub enum MockError {
    /// The queried account is not a staker.
    NotStash,
    /// The account has no unbonding funds to withdraw.
    NothingToUnbond,
    /// Neither bonded nor unbonding funds exist for the account.
    BalanceNotFound,
    /// A delegation names an agent that was never registered.
    AgentNotRegistered,
}

/// The tag distinguishing bonded pool accounts in the derived account space.
pub const BONDED_ACCOUNT_TAG: u128 = 0x1_0000_0000_0000_0000;

/// The tag distinguishing reward pool accounts in the derived account space.
pub const REWARD_ACCOUNT_TAG: u128 = 0x2_0000_0000_0000_0000;

/// The account holding a pool's bonded funds, derived injectively from the
/// pool id.
pub fn generate_bonded_account(pool_id: PoolId) -> (r: AccountId)
    ensures
        r == BONDED_ACCOUNT_TAG + pool_id,
{
    BONDED_ACCOUNT_TAG + pool_id as u128
}

/// The account holding a pool's reward funds, derived injectively from the
/// pool id.
pub fn generate_reward_account(pool_id: PoolId) -> (r: AccountId)
    ensures
        r == REWARD_ACCOUNT_TAG + pool_id,
{
    REWARD_ACCOUNT_TAG + pool_id as u128
}

/// The bonded account of the pool the configuration builder creates.
pub fn default_bonded_account() -> (r: AccountId)
    ensures
        r == BONDED_ACCOUNT_TAG + 1,
{
    generate_bonded_account(1)
}

/// The reward account of the pool the configuration builder creates.
pub fn default_reward_account() -> (r: AccountId)
    ensures
        r == REWARD_ACCOUNT_TAG + 1,
{
    generate_reward_account(1)
}

/// A per-billion fraction.
#[derive(Debug, Clone, Copy, PartialEq, Eq, Structural)]
pub struct Perbill {
    /// Parts per billion.
    pub parts: u32,
}

impl Perbill {
    /// The fraction standing for a whole-number percentage.
    pub fn from_percent(percent: u32) -> (r: Perbill)
        requires
            percent <= 100,
        ensures
            r.parts == percent * 10_000_000,
    {
        Perbill { parts: percent * 10_000_000 }
    }
}

/// An unsigned 256-bit value, held as two 128-bit limbs.
#[derive(Debug, Clone, Copy, PartialEq, Eq, Structural)]
pub struct U256 {
    /// The low 128 bits.
    pub lo: u128,
    /// The high 128 bits.
    pub hi: u128,
}

impl U256 {
    /// The numeric value of the limbs.
    pub open spec fn spec_value(self) -> int {
        self.lo + self.hi * 0x1_0000_0000_0000_0000_0000_0000_0000_0000
    }

    /// Widen a 128-bit value.
    pub fn from_u128(n: u128) -> (r: U256)
        ensures
            r.lo == n,
            r.hi == 0,
            r.spec_value() == n,
    {
        U256 { lo: n, hi: 0 }
    }
}

/// Widens a balance into a 256-bit value; the conversion is exact.
#[derive(Debug)]
pub struct BalanceToU256;

impl BalanceToU256 {
    /// The widening conversion.
    pub fn convert(n: Balance) -> (r: U256)
        ensures
            r.spec_value() == n,
    {
        U256::from_u128(n)
    }
}

/// Narrows a 256-bit value into a balance; values outside the balance range
/// are rejected by precondition, mirroring a conversion that aborts on them.
#[derive(Debug)]
pub struct U256ToBalance;

impl U256ToBalance {
    /// The narrowing conversion.
    pub fn convert(n: U256) -> (r: Balance)
        requires
            n.hi == 0,
        ensures
            r == n.spec_value(),
    {
        n.lo
    }
}

/// The saturating sum of a list of balances.
pub open spec fn sat_sum_balances(s: Seq<Balance>) -> Balance
    decreases s.len(),
{
    if s.len() == 0 {
        0
    } else if sat_sum_balances(s.drop_last()) + s.last() > u128::MAX {
        u128::MAX
    } else {
        (sat_sum_balances(s.drop_last()) + s.last()) as Balance
    }
}

/// The total pending rewards of a pool: its members' individual pending
/// rewards, each computed by the pool accounting around this crate, added
/// with saturation.
pub fn pool_pending_rewards(member_rewards: &Vec<Balance>) -> (r: Balance)
    ensures
        r == sat_sum_balances(member_rewards@),
{
    let n = member_rewards.len();
    let mut acc: u128 = 0;
    let mut i: usize = 0;
    while i < n
        invariant
            i <= n,
            n == member_rewards@.len(),
            acc == sat_sum_balances(member_rewards@.subrange(0, i as int)),
        decreases n - i,
    {
        proof {
            assert(member_rewards@.subrange(0, i + 1 as int).drop_last() =~= member_rewards@
                .subrange(0, i as int));
            assert(member_rewards@.subrange(0, i + 1 as int).last() == member_rewards@[i as int]);
        }
        acc = acc.saturating_add(member_rewards[i]);
        i += 1;
    }
    proof {
        assert(member_rewards@.subrange(0, n as int) =~= member_rewards@);
    }
    acc
}

/// There is no reward deficit (surplus), or there is one (deficit), by the
/// stated amount.
#[derive(Debug, Clone, Copy, PartialEq, Eq, Structural)]
pub enum RewardImbalance {
    /// There is no reward deficit.
    Surplus(Balance),
    /// There is a reward deficit.
    Deficit(Balance),
}

/// Classify the difference between a pool's pending rewards and the current
/// balance of its reward account.  Both inputs are computed by the pool
/// accounting around this crate.
pub fn reward_imbalance(pending_rewards: Balance, current_balance: Balance) -> (r: RewardImbalance)
    ensures
        r == if pending_rewards > current_balance {
            RewardImbalance::Deficit((pending_rewards - current_balance) as Balance)
        } else {
            RewardImbalance::Surplus((current_balance - pending_rewards) as Balance)
        },
{
    if pending_rewards > current_balance {
        RewardImbalance::Deficit(pending_rewards - current_balance)
    } else {
        RewardImbalance::Surplus(current_balance - pending_rewards)
    }
}

/// A membership list of accounts barred from pool operations.
#[derive(Debug)]
pub struct RestrictMock {
    restricted: Vec<AccountId>,
}

impl RestrictMock {
    /// The accounts currently restricted.
    pub closed spec fn restricted_view(self) -> Seq<AccountId> {
        self.restricted@
    }

    /// An empty restrict list.
    pub fn new() -> (r: RestrictMock)
        ensures
            r.restricted_view() == Seq::<AccountId>::empty(),
    {
        RestrictMock { restricted: Vec::new() }
    }

    /// Whether the account is restricted.
    pub fn contains(&self, who: &AccountId) -> (r: bool)
        ensures
            r == self.restricted_view().contains(*who),
    {
        let n = self.restricted.len();
        let mut i: usize = 0;
        while i < n
            invariant
                i <= n,
                n == self.restricted@.len(),
                forall|j: int| 0 <= j < i ==> self.restricted@[j] != *who,
            decreases n - i,
        {
            if self.restricted[i] == *who {
                return true;
            }
            i += 1;
        }
        false
    }
}

/// The restrict list without every occurrence of an account.
pub open spec fn spec_without_account(s: Seq<AccountId>, who: AccountId) -> Seq<AccountId>
    decreases s.len(),
{
    if s.len() == 0 {
        Seq::empty()
    } else if s.last() == who {
        spec_without_account(s.drop_last(), who)
    } else {
        spec_without_account(s.drop_last(), who).push(s.last())
    }
}

/// Restrict an account, once: an already-restricted account is not added
/// again.
pub fn add_to_restrict_list(restrict: &mut RestrictMock, who: &AccountId)
    ensures
        old(restrict).restricted_view().contains(*who) ==> final(restrict).restricted_view() == old(
            restrict,
        ).restricted_view(),
        !old(restrict).restricted_view().contains(*who) ==> final(restrict).restricted_view()
            == old(restrict).restricted_view().push(*who),
{
    if !restrict.contains(who) {
        restrict.restricted.push(*who);
    }
}

/// Lift the restriction of an account, removing every occurrence.
pub fn remove_from_restrict_list(restrict: &mut RestrictMock, who: &AccountId)
    ensures
        final(restrict).restricted_view() == spec_without_account(
            old(restrict).restricted_view(),
            *who,
        ),
{
    let n = restrict.restricted.len();
    let mut kept: Vec<AccountId> = Vec::new();
    let mut i: usize = 0;
    while i < n
        invariant
            i <= n,
            n == restrict.restricted@.len(),
            restrict.restricted@ == old(restrict).restricted@,
            kept@ == spec_without_account(restrict.restricted@.subrange(0, i as int), *who),
        decreases n - i,
    {
        let account = restrict.restricted[i];
        proof {
            assert(restrict.restricted@.subrange(0, i + 1 as int).drop_last() =~= restrict
                .restricted@.subrange(0, i as int));
            assert(restrict.restricted@.subrange(0, i + 1 as int).last() == restrict.restricted@[i as int]);
        }
        if account != *who {
            kept.push(account);
        }
        i += 1;
    }
    proof {
        assert(restrict.restricted@.subrange(0, n as int) =~= restrict.restricted@);
    }
    restrict.restricted = kept;
}

/// Configuration of the mock pool environment, gathered before the pools are
/// brought up.  The pool runtime itself is outside this crate; the builder
/// carries the values it would be started with.
#[derive(Debug)]
pub struct ExtBuilder {
    /// Members joining the first pool, with their bonds.
    pub members: Vec<(AccountId, Balance)>,
    /// Cap on pool members over all pools, when present.
    pub max_members: Option<u32>,
    /// Cap on members of one pool, when present.
    pub max_members_per_pool: Option<u32>,
    /// Cap on pool commission, when present.
    pub global_max_commission: Option<Perbill>,
    /// The currency's existential deposit.
    pub existential_deposit: Balance,
    /// The staking ledger's minimum bond.
    pub min_bond: Balance,
    /// The minimum bond for joining a pool.
    pub min_join_bond: Balance,
    /// The level of the consistency checks run after each test.
    pub check_level: u8,
}

impl Default for ExtBuilder {
    /// The base configuration: no members, four members at most, three per
    /// pool, ninety percent commission cap, and the ledger defaults.
    fn default() -> (r: Self)
        ensures
            r.members@.len() == 0,
            r.max_members == Some(4u32),
            r.max_members_per_pool == Some(3u32),
            (r.global_max_commission == Some(Perbill { parts: 900_000_000 })),
            r.existential_deposit == 5,
            r.min_bond == 10,
            r.min_join_bond == 2,
            r.check_level == 255,
    {
        ExtBuilder {
            members: Vec::new(),
            max_members: Some(4),
            max_members_per_pool: Some(3),
            global_max_commission: Some(Perbill::from_percent(90)),
            existential_deposit: 5,
            min_bond: 10,
            min_join_bond: 2,
            check_level: 255,
        }
    }
}

impl ExtBuilder {
    /// Add members to the first pool.
    pub fn add_members(self, members: Vec<(AccountId, Balance)>) -> (r: Self)
        ensures
            (r == ExtBuilder { members, ..self }),
    {
        let mut this = self;
        this.members = members;
        this
    }

    /// Set the currency's existential deposit.
    pub fn ed(self, ed: Balance) -> (r: Self)
        ensures
            (r == ExtBuilder { existential_deposit: ed, ..self }),
    {
        let mut this = self;
        this.existential_deposit = ed;
        this
    }

    /// Set the staking ledger's minimum bond.
    pub fn min_bond(self, min: Balance) -> (r: Self)
        ensures
            (r == ExtBuilder { min_bond: min, ..self }),
    {
        let mut this = self;
        this.min_bond = min;
        this
    }

    /// Set the minimum bond for joining a pool.
    pub fn min_join_bond(self, min: Balance) -> (r: Self)
        ensures
            (r == ExtBuilder { min_join_bond: min, ..self }),
    {
        let mut this = self;
        this.min_join_bond = min;
        this
    }

    /// Set the level of the consistency checks run after each test.
    pub fn with_check(self, level: u8) -> (r: Self)
        ensures
            (r == ExtBuilder { check_level: level, ..self }),
    {
        let mut this = self;
        this.check_level = level;
        this
    }

    /// Cap the pool members over all pools.
    pub fn max_members(self, max: Option<u32>) -> (r: Self)
        ensures
            (r == ExtBuilder { max_members: max, ..self }),
    {
        let mut this = self;
        this.max_members = max;
        this
    }

    /// Cap the members of one pool.
    pub fn max_members_per_pool(self, max: Option<u32>) -> (r: Self)
        ensures
            (r == ExtBuilder { max_members_per_pool: max, ..self }),
    {
        let mut this = self;
        this.max_members_per_pool = max;
        this
    }

    /// Cap the pool commission.
    pub fn global_max_commission(self, commission: Option<Perbill>) -> (r: Self)
        ensures
            (r == ExtBuilder { global_max_commission: commission, ..self }),
    {
        let mut this = self;
        this.global_max_commission = commission;
        this
    }
}

/// Set a pool account's balance in both ledgers: the bonded balance in the
/// staking ledger and the delegated balance of the agent.
pub fn set_pool_balance(
    staking: &mut StakingMock,
    delegate: &mut DelegateMock,
    who: AccountId,
    amount: Balance,
)
    ensures
        final(staking).bonded_map() == old(staking).bonded_map().insert(who, amount),
        final(staking).unbonding_map() == old(staking).unbonding_map(),
        final(delegate).agents_map() == old(delegate).agents_map().insert(
            who,
            (amount, 0 as Balance, 0 as Balance),
        ),
        final(delegate).delegators_map() == old(delegate).delegators_map(),
{
    staking.set_bonded_balance(who, amount);
    delegate.set_agent_balance(who, amount);
}

/// A pool member's delegated balance.
pub fn member_delegation(delegate: &DelegateMock, who: AccountId) -> (r: Balance)
    requires
        delegate.delegators_map().contains_key(who),
    ensures
        r == delegate.delegators_map()[who],
{
    let r = delegate.delegator_balance(who);
    match r {
        Some(balance) => balance,
        None => {
            proof {
                assert(false);
            }
            0
        },
    }
}

/// A pool's total balance: the agent balance of its bonded account.
pub fn pool_balance(delegate: &DelegateMock, id: PoolId) -> (r: Balance)
    requires
        delegate.agents_map().contains_key((BONDED_ACCOUNT_TAG + id) as AccountId),
        delegate.agents_map()[(BONDED_ACCOUNT_TAG + id) as AccountId].2 <= delegate.agents_map()[
            (BONDED_ACCOUNT_TAG + id) as AccountId
        ].0,
    ensures
        r == delegate.agents_map()[(BONDED_ACCOUNT_TAG + id) as AccountId].0 - delegate.agents_map()[
            (BONDED_ACCOUNT_TAG + id) as AccountId
        ].2,
{
    let account = generate_bonded_account(id);
    let r = delegate.agent_balance(account);
    match r {
        Some(balance) => balance,
        None => {
            proof {
                assert(false);
            }
            0
        },
    }
}

} // verus!
