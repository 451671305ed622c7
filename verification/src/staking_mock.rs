//! A deterministic in-memory staking ledger: bonded balances, unbonding
//! chunks per era, and nominations.

use std::collections::HashMap;
use vstd::prelude::*;

use crate::delegate_mock::DelegateMock;
use crate::pool_mock::{generate_bonded_account, AccountId, Balance, EraIndex, MockError, PoolId};

verus! {

broadcast use vstd::std_specs::hash::group_hash_axioms;

/// A staker's funds: everything it has bonded, and the active part that is
/// not unbonding.
#[derive(Debug, Clone, Copy, PartialEq, Eq, Structural)]
pub struct Stake {
    /// Bonded and unbonding funds together.
    pub total: Balance,
    /// The bonded, not yet unbonding part.
    pub active: Balance,
}

/// The staking status of an account.
#[derive(Debug)]
pub enum StakerStatus {
    /// The account nominates the listed validators.
    Nominator(Vec<AccountId>),
}

/// The exact sum of the amounts of a sequence of unbonding chunks.
pub open spec fn sum_chunks(s: Seq<(EraIndex, Balance)>) -> int
    decreases s.len(),
{
    if s.len() == 0 {
        0
    } else {
        sum_chunks(s.drop_last()) + s.last().1
    }
}

/// The chunks still locked after `era`: those unlocking strictly later.
pub open spec fn kept_chunks(s: Seq<(EraIndex, Balance)>, era: EraIndex) -> Seq<(EraIndex, Balance)>
    decreases s.len(),
{
    if s.len() == 0 {
        Seq::empty()
    } else if s.last().0 > era {
        kept_chunks(s.drop_last(), era).push(s.last())
    } else {
        kept_chunks(s.drop_last(), era)
    }
}

pub proof fn lemma_sum_chunks_nonneg(s: Seq<(EraIndex, Balance)>)
    ensures
        sum_chunks(s) >= 0,
    decreases s.len(),
{
    if s.len() > 0 {
        lemma_sum_chunks_nonneg(s.drop_last());
    }
}

/// The sum of a prefix is bounded by the sum of the whole.
pub proof fn lemma_sum_chunks_prefix_bound(s: Seq<(EraIndex, Balance)>, j: int)
    requires
        0 <= j <= s.len(),
    ensures
        sum_chunks(s.subrange(0, j)) <= sum_chunks(s),
    decreases s.len() - j,
{
    if j == s.len() {
        assert(s.subrange(0, j) =~= s);
    } else {
        assert(s.subrange(0, j + 1).drop_last() =~= s.subrange(0, j));
        assert(s.subrange(0, j + 1).last() == s[j]);
        lemma_sum_chunks_prefix_bound(s, j + 1);
    }
}

/// The saturating sum of the amounts of a sequence of unbonding chunks.
pub open spec fn sat_sum_chunks(s: Seq<(EraIndex, Balance)>) -> Balance
    decreases s.len(),
{
    if s.len() == 0 {
        0
    } else if sat_sum_chunks(s.drop_last()) + s.last().1 > u128::MAX {
        u128::MAX
    } else {
        (sat_sum_chunks(s.drop_last()) + s.last().1) as Balance
    }
}

/// The staking ledger.
#[derive(Debug)]
pub struct StakingMock {
    bonded: HashMap<AccountId, Balance>,
    unbonding: HashMap<AccountId, Vec<(EraIndex, Balance)>>,
    nominations: Option<Vec<AccountId>>,
    current_era: EraIndex,
    bonding_duration: EraIndex,
    min_bond: Balance,
}

impl StakingMock {
    /// Account to bonded balance.
    pub closed spec fn bonded_map(self) -> Map<AccountId, Balance> {
        self.bonded@
    }

    /// Account to its unbonding chunks, each an (unlock era, amount) pair.
    pub closed spec fn unbonding_map(self) -> Map<AccountId, Seq<(EraIndex, Balance)>> {
        Map::new(
            |k: AccountId| self.unbonding@.contains_key(k),
            |k: AccountId| self.unbonding@[k]@,
        )
    }

    /// The nominated validators, when any were set.
    pub closed spec fn nominations_view(self) -> Option<Seq<AccountId>> {
        match self.nominations {
            Some(v) => Some(v@),
            None => None,
        }
    }

    /// The ledger's era configuration: current era, bonding duration and
    /// minimum bond.
    pub closed spec fn era_config(self) -> (EraIndex, EraIndex, Balance) {
        (self.current_era, self.bonding_duration, self.min_bond)
    }

    /// The current era.
    pub open spec fn spec_current_era(self) -> EraIndex {
        self.era_config().0
    }

    /// The bonding duration in eras.
    pub open spec fn spec_bonding_duration(self) -> EraIndex {
        self.era_config().1
    }

    /// The minimum bond.
    pub open spec fn spec_min_bond(self) -> Balance {
        self.era_config().2
    }

    /// A fresh ledger: nothing bonded, nothing unbonding, no nominations,
    /// era zero, a bonding duration of three eras and a minimum bond of ten.
    pub fn new() -> (r: Self)
        ensures
            r.bonded_map() == Map::<AccountId, Balance>::empty(),
            r.unbonding_map() == Map::<AccountId, Seq<(EraIndex, Balance)>>::empty(),
            r.nominations_view() is None,
            r.spec_current_era() == 0,
            r.spec_bonding_duration() == 3,
            r.spec_min_bond() == 10,
    {
        let r = StakingMock {
            bonded: HashMap::new(),
            unbonding: HashMap::new(),
            nominations: None,
            current_era: 0,
            bonding_duration: 3,
            min_bond: 10,
        };
        proof {
            assert(r.unbonding_map() =~= Map::<AccountId, Seq<(EraIndex, Balance)>>::empty());
        }
        r
    }

    /// Set the minimum bond.
    pub fn set_min_bond(&mut self, min: Balance)
        ensures
            final(self).era_config() == (
                old(self).spec_current_era(),
                old(self).spec_bonding_duration(),
                min,
            ),
            final(self).bonded_map() == old(self).bonded_map(),
            final(self).unbonding_map() == old(self).unbonding_map(),
            final(self).nominations_view() == old(self).nominations_view(),
    {
        self.min_bond = min;
        proof {
            assert(final(self).unbonding_map() =~= old(self).unbonding_map());
        }
    }

    /// Advance (or rewind) the current era.
    pub fn set_current_era(&mut self, era: EraIndex)
        ensures
            final(self).era_config() == (
                era,
                old(self).spec_bonding_duration(),
                old(self).spec_min_bond(),
            ),
            final(self).bonded_map() == old(self).bonded_map(),
            final(self).unbonding_map() == old(self).unbonding_map(),
            final(self).nominations_view() == old(self).nominations_view(),
    {
        self.current_era = era;
        proof {
            assert(final(self).unbonding_map() =~= old(self).unbonding_map());
        }
    }

    /// The minimum bond a nominator needs.
    pub fn minimum_nominator_bond(&self) -> (r: Balance)
        ensures
            r == self.spec_min_bond(),
    {
        self.min_bond
    }

    /// The minimum bond a validator needs.
    pub fn minimum_validator_bond(&self) -> (r: Balance)
        ensures
            r == self.spec_min_bond(),
    {
        self.min_bond
    }

    /// The current era.
    pub fn current_era(&self) -> (r: EraIndex)
        ensures
            r == self.spec_current_era(),
    {
        self.current_era
    }

    /// The bonding duration in eras.
    pub fn bonding_duration(&self) -> (r: EraIndex)
        ensures
            r == self.spec_bonding_duration(),
    {
        self.bonding_duration
    }

    /// The staking status: a nominator when nominations were set, an error
    /// otherwise.
    pub fn status(&self, _who: &AccountId) -> (r: Result<StakerStatus, MockError>)
        ensures
            match r {
                Ok(StakerStatus::Nominator(noms)) => self.nominations_view() is Some && noms@
                    == self.nominations_view()->0,
                Err(e) => self.nominations_view() is None && e == MockError::NotStash,
            },
    {
        match &self.nominations {
            Some(noms) => Ok(StakerStatus::Nominator(copy_accounts(noms))),
            None => Err(MockError::NotStash),
        }
    }

    /// Whether the account's stake is managed through the delegation ledger.
    pub fn is_virtual_staker(&self, delegate: &DelegateMock, who: &AccountId) -> (r: bool)
        ensures
            r == delegate.agents_map().contains_key(*who),
    {
        delegate.contains_agent(*who)
    }

    /// Whether the account has a bonded balance.
    pub fn is_bonded(&self, who: AccountId) -> (r: bool)
        ensures
            r == self.bonded_map().contains_key(who),
    {
        self.bonded.contains_key(&who)
    }

    /// Set an account's bonded balance.
    pub fn set_bonded_balance(&mut self, who: AccountId, bonded: Balance)
        ensures
            final(self).bonded_map() == old(self).bonded_map().insert(who, bonded),
            final(self).unbonding_map() == old(self).unbonding_map(),
            final(self).era_config() == old(self).era_config(),
            final(self).nominations_view() == old(self).nominations_view(),
    {
        self.bonded.insert(who, bonded);
        proof {
            assert(final(self).unbonding_map() =~= old(self).unbonding_map());
        }
    }

    /// Mimic a slash towards a pool: the bonded balance of the pool's
    /// bonded account shrinks by `amount` and the slash is recorded as
    /// pending in the delegation ledger.
    pub fn slash_by(&mut self, delegate: &mut DelegateMock, pool_id: PoolId, amount: Balance)
        requires
            old(self).bonded_map().contains_key(
                (crate::pool_mock::BONDED_ACCOUNT_TAG + pool_id) as AccountId,
            ),
            amount <= old(self).bonded_map()[(crate::pool_mock::BONDED_ACCOUNT_TAG + pool_id) as AccountId],
            old(delegate).agents_map().contains_key((crate::pool_mock::BONDED_ACCOUNT_TAG + pool_id) as AccountId)
                ==> old(delegate).agents_map()[(crate::pool_mock::BONDED_ACCOUNT_TAG + pool_id) as AccountId].2
                + amount <= u128::MAX,
        ensures
            ({
                let acc = (crate::pool_mock::BONDED_ACCOUNT_TAG + pool_id) as AccountId;
                &&& final(self).bonded_map() == old(self).bonded_map().insert(
                    acc,
                    (old(self).bonded_map()[acc] - amount) as Balance,
                )
                &&& final(self).unbonding_map() == old(self).unbonding_map()
                &&& final(self).era_config() == old(self).era_config()
                &&& final(self).nominations_view() == old(self).nominations_view()
                &&& final(delegate).agents_map() == if old(delegate).agents_map().contains_key(
                    acc,
                ) {
                    old(delegate).agents_map().insert(
                        acc,
                        (
                            old(delegate).agents_map()[acc].0,
                            old(delegate).agents_map()[acc].1,
                            (old(delegate).agents_map()[acc].2 + amount) as Balance,
                        ),
                    )
                } else {
                    old(delegate).agents_map()
                }
                &&& final(delegate).delegators_map() == old(delegate).delegators_map()
            }),
    {
        let acc = generate_bonded_account(pool_id);
        let pre_total = match self.bonded.get(&acc) {
            Some(b) => *b,
            None => {
                proof {
                    assert(false);
                }
                0
            },
        };
        self.set_bonded_balance(acc, pre_total - amount);
        delegate.on_slash(acc, amount);
    }

    /// Grow an account's bonded balance by `extra`.  An account without a
    /// bonded balance is left untouched.
    pub fn bond_extra(&mut self, who: AccountId, extra: Balance) -> (r: Result<(), MockError>)
        requires
            old(self).bonded_map().contains_key(who) ==> old(self).bonded_map()[who] + extra
                <= u128::MAX,
        ensures
            final(self).bonded_map() == if old(self).bonded_map().contains_key(who) {
                old(self).bonded_map().insert(
                    who,
                    (old(self).bonded_map()[who] + extra) as Balance,
                )
            } else {
                old(self).bonded_map()
            },
            final(self).unbonding_map() == old(self).unbonding_map(),
            final(self).era_config() == old(self).era_config(),
            final(self).nominations_view() == old(self).nominations_view(),
            r == Ok::<(), MockError>(()),
    {
        let entry = match self.bonded.get(&who) {
            Some(b) => Some(*b),
            None => None,
        };
        if let Some(b) = entry {
            self.bonded.insert(who, b + extra);
        }
        proof {
            assert(final(self).unbonding_map() =~= old(self).unbonding_map());
        }
        Ok(())
    }

    /// Move `amount` of the account's bonded balance (saturating at zero)
    /// into a chunk unlocking one bonding duration after the current era.
    pub fn unbond(&mut self, who: AccountId, amount: Balance) -> (r: Result<(), MockError>)
        requires
            old(self).bonded_map().contains_key(who),
            old(self).spec_current_era() + old(self).spec_bonding_duration() <= u32::MAX,
        ensures
            final(self).bonded_map() == old(self).bonded_map().insert(
                who,
                if amount <= old(self).bonded_map()[who] {
                    (old(self).bonded_map()[who] - amount) as Balance
                } else {
                    0 as Balance
                },
            ),
            final(self).unbonding_map() == old(self).unbonding_map().insert(
                who,
                (if old(self).unbonding_map().contains_key(who) {
                    old(self).unbonding_map()[who]
                } else {
                    Seq::empty()
                }).push(
                    (
                        (old(self).spec_current_era() + old(self).spec_bonding_duration()) as EraIndex,
                        amount,
                    ),
                ),
            ),
            final(self).era_config() == old(self).era_config(),
            final(self).nominations_view() == old(self).nominations_view(),
            r == Ok::<(), MockError>(()),
    {
        let b = match self.bonded.get(&who) {
            Some(b) => *b,
            None => {
                proof {
                    assert(false);
                }
                0
            },
        };
        self.bonded.insert(who, b.saturating_sub(amount));

        let era = self.current_era;
        let unlocking_at = era + self.bonding_duration;
        let mut chunks: Vec<(EraIndex, Balance)> = Vec::new();
        let existing = self.unbonding.get(&who);
        match existing {
            Some(v) => {
                let n = v.len();
                let mut i: usize = 0;
                while i < n
                    invariant
                        i <= n,
                        n == v@.len(),
                        chunks@ == v@.subrange(0, i as int),
                    decreases n - i,
                {
                    chunks.push(v[i]);
                    proof {
                        assert(v@.subrange(0, i + 1 as int) =~= v@.subrange(0, i as int).push(
                            v@[i as int],
                        ));
                    }
                    i += 1;
                }
                proof {
                    assert(v@.subrange(0, n as int) =~= v@);
                }
            },
            None => {},
        }
        chunks.push((unlocking_at, amount));
        self.unbonding.insert(who, chunks);
        proof {
            assert(final(self).unbonding_map() =~= old(self).unbonding_map().insert(
                who,
                (if old(self).unbonding_map().contains_key(who) {
                    old(self).unbonding_map()[who]
                } else {
                    Seq::empty()
                }).push(
                    (
                        (old(self).spec_current_era()
                            + old(self).spec_bonding_duration()) as EraIndex,
                        amount,
                    ),
                ),
            ));
        }
        Ok(())
    }

    /// Drop the ledger entry; nothing is tracked for chilled accounts.
    pub fn chill(_who: &AccountId) -> (r: Result<(), MockError>)
        ensures
            r == Ok::<(), MockError>(()),
    {
        Ok(())
    }

    /// Release every chunk whose unlock era has passed: the released amount
    /// is recorded as an unclaimed withdrawal in the delegation ledger, and
    /// the call reports whether nothing at all is left for the account.
    /// An account with no unbonding entry has nothing to withdraw.
    pub fn withdraw_unbonded(&mut self, delegate: &mut DelegateMock, who: AccountId, _num_slashing_spans: u32) -> (r:
        Result<bool, MockError>)
        requires
            old(self).unbonding_map().contains_key(who) ==> sum_chunks(
                old(self).unbonding_map()[who],
            ) <= u128::MAX,
            old(self).unbonding_map().contains_key(who) ==> old(self).bonded_map().contains_key(
                who,
            ),
            (old(self).unbonding_map().contains_key(who) && old(delegate).agents_map().contains_key(
                who,
            )) ==> old(delegate).agents_map()[who].1 + (sum_chunks(old(self).unbonding_map()[who])
                - sum_chunks(
                kept_chunks(old(self).unbonding_map()[who], old(self).spec_current_era()),
            )) <= u128::MAX,
        ensures
            !old(self).unbonding_map().contains_key(who) ==> {
                &&& r == Err::<bool, MockError>(MockError::NothingToUnbond)
                &&& *final(self) == *old(self)
                &&& *final(delegate) == *old(delegate)
            },
            old(self).unbonding_map().contains_key(who) ==> ({
                let chunks = old(self).unbonding_map()[who];
                let era = old(self).spec_current_era();
                let kept = kept_chunks(chunks, era);
                let withdrawn = sum_chunks(chunks) - sum_chunks(kept);
                &&& final(self).unbonding_map() == old(self).unbonding_map().insert(who, kept)
                &&& final(self).bonded_map() == old(self).bonded_map()
                &&& final(self).era_config() == old(self).era_config()
                &&& final(self).nominations_view() == old(self).nominations_view()
                &&& final(delegate).agents_map() == if old(delegate).agents_map().contains_key(
                    who,
                ) {
                    old(delegate).agents_map().insert(
                        who,
                        (
                            old(delegate).agents_map()[who].0,
                            (old(delegate).agents_map()[who].1 + withdrawn) as Balance,
                            old(delegate).agents_map()[who].2,
                        ),
                    )
                } else {
                    old(delegate).agents_map()
                }
                &&& final(delegate).delegators_map() == old(delegate).delegators_map()
                &&& r == Ok::<bool, MockError>(
                    kept.len() == 0 && old(self).bonded_map()[who] == 0,
                )
            }),
    {
        let era = self.current_era;
        let chunks_ref = match self.unbonding.get(&who) {
            Some(v) => v,
            None => {
                return Err(MockError::NothingToUnbond);
            },
        };
        let ghost chunks_view = chunks_ref@;
        let n = chunks_ref.len();
        let mut kept: Vec<(EraIndex, Balance)> = Vec::new();
        let mut unlocking_before: u128 = 0;
        let mut unlocking_after: u128 = 0;
        let mut i: usize = 0;
        while i < n
            invariant
                i <= n,
                n == chunks_view.len(),
                chunks_ref@ == chunks_view,
                sum_chunks(chunks_view) <= u128::MAX,
                unlocking_before == sum_chunks(chunks_view.subrange(0, i as int)),
                kept@ == kept_chunks(chunks_view.subrange(0, i as int), era),
                unlocking_after == sum_chunks(kept@),
                unlocking_after <= unlocking_before,
            decreases n - i,
        {
            let chunk = chunks_ref[i];
            proof {
                assert(chunks_view.subrange(0, i + 1 as int).drop_last() =~= chunks_view.subrange(
                    0,
                    i as int,
                ));
                assert(chunks_view.subrange(0, i + 1 as int).last() == chunks_view[i as int]);
                lemma_sum_chunks_prefix_bound(chunks_view, i + 1 as int);
                lemma_sum_chunks_nonneg(chunks_view.subrange(0, i as int));
            }
            unlocking_before = unlocking_before + chunk.1;
            if chunk.0 > era {
                let ghost kept_prior = kept@;
                kept.push(chunk);
                proof {
                    assert(kept@.drop_last() =~= kept_prior);
                    assert(kept@.last() == chunk);
                }
                unlocking_after = unlocking_after + chunk.1;
            }
            i += 1;
        }
        proof {
            assert(chunks_view.subrange(0, n as int) =~= chunks_view);
        }
        let withdraw_amount = unlocking_before - unlocking_after;
        delegate.on_withdraw(who, withdraw_amount);
        let all_unlocked = kept.len() == 0;
        self.unbonding.insert(who, kept);
        let bonded_balance = match self.bonded.get(&who) {
            Some(b) => *b,
            None => {
                proof {
                    assert(false);
                }
                0
            },
        };
        proof {
            assert(final(self).unbonding_map() =~= old(self).unbonding_map().insert(
                who,
                kept_chunks(old(self).unbonding_map()[who], old(self).spec_current_era()),
            ));
        }
        Ok(all_unlocked && bonded_balance == 0)
    }

    /// Bond `value` for the account, replacing any previous bonded balance.
    pub fn bond(&mut self, stash: AccountId, value: Balance, _reward_account: &AccountId) -> (r:
        Result<(), MockError>)
        ensures
            final(self).bonded_map() == old(self).bonded_map().insert(stash, value),
            final(self).unbonding_map() == old(self).unbonding_map(),
            final(self).era_config() == old(self).era_config(),
            final(self).nominations_view() == old(self).nominations_view(),
            r == Ok::<(), MockError>(()),
    {
        self.set_bonded_balance(stash, value);
        Ok(())
    }

    /// Record the nominated validators.
    pub fn nominate(&mut self, _who: &AccountId, nominations: Vec<AccountId>) -> (r: Result<
        (),
        MockError,
    >)
        ensures
            final(self).nominations_view() == Some(nominations@),
            final(self).bonded_map() == old(self).bonded_map(),
            final(self).unbonding_map() == old(self).unbonding_map(),
            final(self).era_config() == old(self).era_config(),
            r == Ok::<(), MockError>(()),
    {
        self.nominations = Some(nominations);
        proof {
            assert(final(self).unbonding_map() =~= old(self).unbonding_map());
        }
        Ok(())
    }

    /// The nominated validators, when any were set.
    pub fn nominations(&self, _who: &AccountId) -> (r: Option<Vec<AccountId>>)
        ensures
            match r {
                Some(noms) => self.nominations_view() is Some && noms@
                    == self.nominations_view()->0,
                None => self.nominations_view() is None,
            },
    {
        match &self.nominations {
            Some(noms) => Some(copy_accounts(noms)),
            None => None,
        }
    }

    /// The account's stake: bonded funds are active; unbonding chunks count
    /// toward the total, their amounts added with saturation.
    pub fn stake(&self, who: AccountId) -> (r: Result<Stake, MockError>)
        requires
            (self.unbonding_map().contains_key(who) && self.bonded_map().contains_key(who))
                ==> sat_sum_chunks(self.unbonding_map()[who]) + self.bonded_map()[who]
                <= u128::MAX,
        ensures
            match r {
                Ok(stake) => {
                    ||| (self.unbonding_map().contains_key(who)
                        && !self.bonded_map().contains_key(who) && stake == (Stake {
                        total: sat_sum_chunks(self.unbonding_map()[who]),
                        active: 0,
                    }))
                    ||| (!self.unbonding_map().contains_key(who)
                        && self.bonded_map().contains_key(who) && stake == (Stake {
                        total: self.bonded_map()[who],
                        active: self.bonded_map()[who],
                    }))
                    ||| (self.unbonding_map().contains_key(who)
                        && self.bonded_map().contains_key(who) && stake == (Stake {
                        total: (sat_sum_chunks(self.unbonding_map()[who]) + self.bonded_map()[
                            who
                        ]) as Balance,
                        active: self.bonded_map()[who],
                    }))
                },
                Err(e) => !self.unbonding_map().contains_key(who)
                    && !self.bonded_map().contains_key(who) && e == MockError::BalanceNotFound,
            },
    {
        let unbonding_entry = self.unbonding.get(&who);
        let bonded_entry = match self.bonded.get(&who) {
            Some(b) => Some(*b),
            None => None,
        };
        match (unbonding_entry, bonded_entry) {
            (None, None) => Err(MockError::BalanceNotFound),
            (Some(v), None) => Ok(Stake { total: sum_unlocking(v), active: 0 }),
            (None, Some(b)) => Ok(Stake { total: b, active: b }),
            (Some(v), Some(b)) => Ok(Stake { total: sum_unlocking(v) + b, active: b }),
        }
    }
}

/// The saturating sum of the amounts of the chunks.
fn sum_unlocking(chunks: &Vec<(EraIndex, Balance)>) -> (r: Balance)
    ensures
        r == sat_sum_chunks(chunks@),
{
    let n = chunks.len();
    let mut acc: u128 = 0;
    let mut i: usize = 0;
    while i < n
        invariant
            i <= n,
            n == chunks@.len(),
            acc == sat_sum_chunks(chunks@.subrange(0, i as int)),
        decreases n - i,
    {
        proof {
            assert(chunks@.subrange(0, i + 1 as int).drop_last() =~= chunks@.subrange(0, i as int));
            assert(chunks@.subrange(0, i + 1 as int).last() == chunks@[i as int]);
        }
        acc = acc.saturating_add(chunks[i].1);
        i += 1;
    }
    proof {
        assert(chunks@.subrange(0, n as int) =~= chunks@);
    }
    acc
}

/// Copy a list of accounts.
fn copy_accounts(accounts: &Vec<AccountId>) -> (r: Vec<AccountId>)
    ensures
        r@ == accounts@,
{
    let n = accounts.len();
    let mut r: Vec<AccountId> = Vec::new();
    let mut i: usize = 0;
    while i < n
        invariant
            i <= n,
            n == accounts@.len(),
            r@ == accounts@.subrange(0, i as int),
        decreases n - i,
    {
        r.push(accounts[i]);
        proof {
            assert(accounts@.subrange(0, i + 1 as int) =~= accounts@.subrange(0, i as int).push(
                accounts@[i as int],
            ));
        }
        i += 1;
    }
    proof {
        assert(accounts@.subrange(0, n as int) =~= accounts@);
    }
    r
}

} // verus!
