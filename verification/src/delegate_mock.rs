//! A deterministic in-memory delegation ledger: per-agent delegated funds,
//! unclaimed withdrawals and pending slashes, and per-delegator balances.

use std::collections::HashMap;
use vstd::prelude::*;

use crate::pool_mock::{AccountId, Balance, MockError};
use crate::staking_mock::StakingMock;

verus! {

broadcast use vstd::std_specs::hash::group_hash_axioms;

/// The delegation ledger.  Each agent carries a triple of delegated balance,
/// unclaimed withdrawals and pending slash; each delegator carries the
/// balance it has delegated.
#[derive(Debug)]
pub struct DelegateMock {
    agents: HashMap<AccountId, (Balance, Balance, Balance)>,
    delegators: HashMap<AccountId, Balance>,
}

impl DelegateMock {
    /// Agent account to (delegated balance, unclaimed withdrawals, pending
    /// slash).
    pub closed spec fn agents_map(self) -> Map<AccountId, (Balance, Balance, Balance)> {
        self.agents@
    }

    /// Delegator account to delegated balance.
    pub closed spec fn delegators_map(self) -> Map<AccountId, Balance> {
        self.delegators@
    }

    /// An empty ledger.
    pub fn new() -> (r: Self)
        ensures
            r.agents_map() == Map::<AccountId, (Balance, Balance, Balance)>::empty(),
            r.delegators_map() == Map::<AccountId, Balance>::empty(),
    {
        DelegateMock { agents: HashMap::new(), delegators: HashMap::new() }
    }

    /// Whether the account is a registered agent.
    pub fn contains_agent(&self, agent: AccountId) -> (r: bool)
        ensures
            r == self.agents_map().contains_key(agent),
    {
        self.agents.contains_key(&agent)
    }

    /// The agent's balance held for delegators: delegated funds less the
    /// pending slash.
    pub fn agent_balance(&self, agent: AccountId) -> (r: Option<Balance>)
        requires
            self.agents_map().contains_key(agent) ==> self.agents_map()[agent].2
                <= self.agents_map()[agent].0,
        ensures
            match r {
                Some(b) => self.agents_map().contains_key(agent) && b == self.agents_map()[agent].0
                    - self.agents_map()[agent].2,
                None => !self.agents_map().contains_key(agent),
            },
    {
        match self.agents.get(&agent) {
            Some(t) => Some(t.0 - t.2),
            None => None,
        }
    }

    /// The agent's unclaimed withdrawals.
    pub fn agent_transferable_balance(&self, agent: AccountId) -> (r: Option<Balance>)
        ensures
            match r {
                Some(b) => self.agents_map().contains_key(agent) && b
                    == self.agents_map()[agent].1,
                None => !self.agents_map().contains_key(agent),
            },
    {
        match self.agents.get(&agent) {
            Some(t) => Some(t.1),
            None => None,
        }
    }

    /// The delegator's delegated balance.
    pub fn delegator_balance(&self, delegator: AccountId) -> (r: Option<Balance>)
        ensures
            match r {
                Some(b) => self.delegators_map().contains_key(delegator) && b
                    == self.delegators_map()[delegator],
                None => !self.delegators_map().contains_key(delegator),
            },
    {
        match self.delegators.get(&delegator) {
            Some(b) => Some(*b),
            None => None,
        }
    }

    /// Register an agent with empty accounts.
    pub fn register_agent(&mut self, agent: AccountId, _reward_account: &AccountId) -> (r: Result<
        (),
        MockError,
    >)
        ensures
            final(self).agents_map() == old(self).agents_map().insert(
                agent,
                (0 as Balance, 0 as Balance, 0 as Balance),
            ),
            final(self).delegators_map() == old(self).delegators_map(),
            r == Ok::<(), MockError>(()),
    {
        self.agents.insert(agent, (0, 0, 0));
        Ok(())
    }

    /// Remove a registered agent.
    pub fn remove_agent(&mut self, agent: AccountId) -> (r: Result<(), MockError>)
        requires
            old(self).agents_map().contains_key(agent),
        ensures
            final(self).agents_map() == old(self).agents_map().remove(agent),
            final(self).delegators_map() == old(self).delegators_map(),
            r == Ok::<(), MockError>(()),
    {
        self.agents.remove(&agent);
        Ok(())
    }

    /// Delegate `amount` from a delegator to an agent: the delegator's
    /// balance grows, the agent's delegated funds grow, and the amount is
    /// bonded in the staking ledger.  An unregistered agent is an error; the
    /// delegator's balance has grown nonetheless, since the agent lookup
    /// happens after the delegator update.
    pub fn delegate(
        &mut self,
        staking: &mut StakingMock,
        delegator: AccountId,
        agent: AccountId,
        amount: Balance,
    ) -> (r: Result<(), MockError>)
        requires
            old(self).delegators_map().contains_key(delegator) ==> old(self).delegators_map()[
                delegator
            ] + amount <= u128::MAX,
            old(self).agents_map().contains_key(agent) ==> old(self).agents_map()[agent].0 + amount
                <= u128::MAX,
            (old(self).agents_map().contains_key(agent) && old(staking).bonded_map().contains_key(
                agent,
            )) ==> old(staking).bonded_map()[agent] + amount <= u128::MAX,
        ensures
            final(self).delegators_map() == old(self).delegators_map().insert(
                delegator,
                if old(self).delegators_map().contains_key(delegator) {
                    (old(self).delegators_map()[delegator] + amount) as Balance
                } else {
                    amount
                },
            ),
            !old(self).agents_map().contains_key(agent) ==> {
                &&& r == Err::<(), MockError>(MockError::AgentNotRegistered)
                &&& final(self).agents_map() == old(self).agents_map()
                &&& *final(staking) == *old(staking)
            },
            old(self).agents_map().contains_key(agent) ==> {
                &&& r == Ok::<(), MockError>(())
                &&& final(self).agents_map() == old(self).agents_map().insert(
                    agent,
                    (
                        (old(self).agents_map()[agent].0 + amount) as Balance,
                        old(self).agents_map()[agent].1,
                        old(self).agents_map()[agent].2,
                    ),
                )
                &&& final(staking).bonded_map() == old(staking).bonded_map().insert(
                    agent,
                    if old(staking).bonded_map().contains_key(agent) {
                        (old(staking).bonded_map()[agent] + amount) as Balance
                    } else {
                        amount
                    },
                )
                &&& final(staking).unbonding_map() == old(staking).unbonding_map()
                &&& final(staking).era_config() == old(staking).era_config()
                &&& final(staking).nominations_view() == old(staking).nominations_view()
            },
    {
        let new_delegator_balance = match self.delegators.get(&delegator) {
            Some(b) => *b + amount,
            None => amount,
        };
        self.delegators.insert(delegator, new_delegator_balance);

        let agent_entry = match self.agents.get(&agent) {
            Some(t) => Some(*t),
            None => None,
        };
        match agent_entry {
            None => Err(MockError::AgentNotRegistered),
            Some(t) => {
                self.agents.insert(agent, (t.0 + amount, t.1, t.2));
                if staking.is_bonded(agent) {
                    staking.bond_extra(agent, amount)
                } else {
                    // The reward account does not matter in this context.
                    staking.bond(agent, amount, &999)
                }
            },
        }
    }

    /// Release a withdrawal: the delegator's balance and the agent's
    /// delegated funds and unclaimed withdrawals shrink by `amount`.
    /// Accounts that do not exist are left untouched.
    pub fn withdraw_delegation(
        &mut self,
        delegator: AccountId,
        agent: AccountId,
        amount: Balance,
        _num_slashing_spans: u32,
    ) -> (r: Result<(), MockError>)
        requires
            old(self).delegators_map().contains_key(delegator) ==> amount <= old(
                self,
            ).delegators_map()[delegator],
            old(self).agents_map().contains_key(agent) ==> amount <= old(self).agents_map()[
                agent
            ].0 && amount <= old(self).agents_map()[agent].1,
        ensures
            final(self).delegators_map() == if old(self).delegators_map().contains_key(delegator) {
                old(self).delegators_map().insert(
                    delegator,
                    (old(self).delegators_map()[delegator] - amount) as Balance,
                )
            } else {
                old(self).delegators_map()
            },
            final(self).agents_map() == if old(self).agents_map().contains_key(agent) {
                old(self).agents_map().insert(
                    agent,
                    (
                        (old(self).agents_map()[agent].0 - amount) as Balance,
                        (old(self).agents_map()[agent].1 - amount) as Balance,
                        old(self).agents_map()[agent].2,
                    ),
                )
            } else {
                old(self).agents_map()
            },
            r == Ok::<(), MockError>(()),
    {
        let delegator_entry = match self.delegators.get(&delegator) {
            Some(b) => Some(*b),
            None => None,
        };
        if let Some(b) = delegator_entry {
            self.delegators.insert(delegator, b - amount);
        }
        let agent_entry = match self.agents.get(&agent) {
            Some(t) => Some(*t),
            None => None,
        };
        if let Some(t) = agent_entry {
            self.agents.insert(agent, (t.0 - amount, t.1 - amount, t.2));
        }
        Ok(())
    }

    /// The agent's pending slash.
    pub fn pending_slash(&self, agent: AccountId) -> (r: Option<Balance>)
        ensures
            match r {
                Some(b) => self.agents_map().contains_key(agent) && b
                    == self.agents_map()[agent].2,
                None => !self.agents_map().contains_key(agent),
            },
    {
        match self.agents.get(&agent) {
            Some(t) => Some(t.2),
            None => None,
        }
    }

    /// Apply a slash to a delegator: its balance shrinks by `value` and the
    /// agent's pending slash shrinks by the same amount, saturating at zero.
    pub fn delegator_slash(
        &mut self,
        agent: AccountId,
        delegator: AccountId,
        value: Balance,
        _maybe_reporter: Option<AccountId>,
    ) -> (r: Result<(), MockError>)
        requires
            old(self).delegators_map().contains_key(delegator) ==> value <= old(
                self,
            ).delegators_map()[delegator],
        ensures
            final(self).delegators_map() == if old(self).delegators_map().contains_key(delegator) {
                old(self).delegators_map().insert(
                    delegator,
                    (old(self).delegators_map()[delegator] - value) as Balance,
                )
            } else {
                old(self).delegators_map()
            },
            final(self).agents_map() == if old(self).agents_map().contains_key(agent) {
                old(self).agents_map().insert(
                    agent,
                    (
                        old(self).agents_map()[agent].0,
                        old(self).agents_map()[agent].1,
                        if value <= old(self).agents_map()[agent].2 {
                            (old(self).agents_map()[agent].2 - value) as Balance
                        } else {
                            0 as Balance
                        },
                    ),
                )
            } else {
                old(self).agents_map()
            },
            r == Ok::<(), MockError>(()),
    {
        let delegator_entry = match self.delegators.get(&delegator) {
            Some(b) => Some(*b),
            None => None,
        };
        if let Some(b) = delegator_entry {
            self.delegators.insert(delegator, b - value);
        }
        let agent_entry = match self.agents.get(&agent) {
            Some(t) => Some(*t),
            None => None,
        };
        if let Some(t) = agent_entry {
            self.agents.insert(agent, (t.0, t.1, t.2.saturating_sub(value)));
        }
        Ok(())
    }

    /// Set an agent's delegated balance, clearing its withdrawals and
    /// pending slash.
    pub fn set_agent_balance(&mut self, who: AccountId, delegated: Balance)
        ensures
            final(self).agents_map() == old(self).agents_map().insert(
                who,
                (delegated, 0 as Balance, 0 as Balance),
            ),
            final(self).delegators_map() == old(self).delegators_map(),
    {
        self.agents.insert(who, (delegated, 0, 0));
    }

    /// Set a delegator's balance.
    pub fn set_delegator_balance(&mut self, who: AccountId, amount: Balance)
        ensures
            final(self).delegators_map() == old(self).delegators_map().insert(who, amount),
            final(self).agents_map() == old(self).agents_map(),
    {
        self.delegators.insert(who, amount);
    }

    /// Record a slash against an agent: its pending slash grows by `amount`.
    /// An unknown agent is left untouched.
    pub fn on_slash(&mut self, agent: AccountId, amount: Balance)
        requires
            old(self).agents_map().contains_key(agent) ==> old(self).agents_map()[agent].2 + amount
                <= u128::MAX,
        ensures
            final(self).agents_map() == if old(self).agents_map().contains_key(agent) {
                old(self).agents_map().insert(
                    agent,
                    (
                        old(self).agents_map()[agent].0,
                        old(self).agents_map()[agent].1,
                        (old(self).agents_map()[agent].2 + amount) as Balance,
                    ),
                )
            } else {
                old(self).agents_map()
            },
            final(self).delegators_map() == old(self).delegators_map(),
    {
        let agent_entry = match self.agents.get(&agent) {
            Some(t) => Some(*t),
            None => None,
        };
        if let Some(t) = agent_entry {
            self.agents.insert(agent, (t.0, t.1, t.2 + amount));
        }
    }

    /// Record a withdrawal for an agent: its unclaimed withdrawals grow by
    /// `amount`.  An unknown agent is left untouched.
    pub(crate) fn on_withdraw(&mut self, agent: AccountId, amount: Balance)
        requires
            old(self).agents_map().contains_key(agent) ==> old(self).agents_map()[agent].1 + amount
                <= u128::MAX,
        ensures
            final(self).agents_map() == if old(self).agents_map().contains_key(agent) {
                old(self).agents_map().insert(
                    agent,
                    (
                        old(self).agents_map()[agent].0,
                        (old(self).agents_map()[agent].1 + amount) as Balance,
                        old(self).agents_map()[agent].2,
                    ),
                )
            } else {
                old(self).agents_map()
            },
            final(self).delegators_map() == old(self).delegators_map(),
    {
        let agent_entry = match self.agents.get(&agent) {
            Some(t) => Some(*t),
            None => None,
        };
        if let Some(t) = agent_entry {
            self.agents.insert(agent, (t.0, t.1 + amount, t.2));
        }
    }
}

} // verus!
