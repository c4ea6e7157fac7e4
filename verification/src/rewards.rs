//! Reward program: every Nth successful post earns its poster a fixed
//! payout from a pooled balance.
//!
//! The posting entry points bump the global claim counter; whether the
//! Nth-post reward is owed is decided by [`ContractStorage::reward_due`]
//! without mutating anything, the host transfers the payout, and only on
//! success does it call [`ContractStorage::commit_reward`] to debit the
//! pool.  Root-only administration follows the same shape: shutting the
//! program down refunds the pool through a decide-transfer-commit cycle.

use vstd::prelude::*;

use crate::storage::{
    same_account_config, same_caps, same_message_system, same_paid_system, same_social,
    ContractStorage,
};
use crate::types::{AccountId, AccountRewardedSocial, Balance, Error, RewardSettings};

verus! {

/// The stores a reward operation never touches.
pub open spec fn same_stores(a: ContractStorage, b: ContractStorage) -> bool {
    &&& same_social(a, b)
    &&& same_message_system(a, b)
    &&& same_paid_system(a, b)
    &&& same_account_config(a, b)
}

/// Whether a reward payout is owed right after a successful post: the
/// program is on, the pool strictly covers the reward, the contract
/// balance strictly covers the reward plus a floor of 10, and the claim
/// counter has hit a multiple of the interval (an interval of zero never
/// pays).
pub open spec fn reward_due_now(s: ContractStorage, contract_balance: Balance) -> Option<Balance> {
    if s.reward_on == 1 && s.reward_balance > s.reward_amount && contract_balance
        > s.reward_amount.saturating_add(10) && s.reward_interval != 0 && s.claim_counter
        % s.reward_interval == 0 {
        Some(s.reward_amount)
    } else {
        None
    }
}

/// What shutting the reward program down yields: the refund the host owes
/// the root, or the error.  Only the root may shut the program down, and
/// only while the contract balance is above the reserve floor of 10 and
/// the pool is non-empty.
pub open spec fn shutdown_decision(
    s: ContractStorage,
    caller: AccountId,
    contract_balance: Balance,
) -> Result<Balance, Error> {
    if s.reward_root != caller {
        Err(Error::PermissionDenied)
    } else if contract_balance > 10 && s.reward_balance > 0 {
        Ok(s.reward_balance.saturating_sub(10))
    } else {
        Err(Error::ZeroBalance)
    }
}

impl ContractStorage {
    /// Sets the reward root.  Allowed while no root was ever set, or for
    /// the current root.
    pub fn set_reward_root(&mut self, caller: AccountId, newroot: AccountId) -> (r: Result<
        (),
        Error,
    >)
        requires
            old(self).wf(),
        ensures
            final(self).wf(),
            match r {
                Ok(()) => {
                    &&& old(self).reward_root_set != 1 || old(self).reward_root == caller
                    &&& final(self).reward_root == newroot
                    &&& final(self).reward_root_set == 1
                    &&& final(self).reward_interval == old(self).reward_interval
                    &&& final(self).reward_amount == old(self).reward_amount
                    &&& final(self).reward_on == old(self).reward_on
                    &&& final(self).reward_balance == old(self).reward_balance
                    &&& final(self).reward_payouts == old(self).reward_payouts
                    &&& final(self).claim_counter == old(self).claim_counter
                    &&& same_stores(*old(self), *final(self))
                    &&& final(self).account_elevated_map@ == old(self).account_elevated_map@
                    &&& same_caps(*old(self), *final(self))
                },
                Err(e) => {
                    &&& e == Error::PermissionDenied
                    &&& old(self).reward_root_set == 1 && old(self).reward_root != caller
                    &&& *final(self) == *old(self)
                },
            },
    {
        if self.reward_root_set != 1 || self.reward_root == caller {
            self.reward_root = newroot;
            self.reward_root_set = 1;
            Ok(())
        } else {
            Err(Error::PermissionDenied)
        }
    }

    /// Root-only: switches the program on or off and sets interval and
    /// amount.
    pub fn set_reward(&mut self, caller: AccountId, on: u8, interval: u128, amount: Balance) -> (r:
        Result<(), Error>)
        requires
            old(self).wf(),
        ensures
            final(self).wf(),
            match r {
                Ok(()) => {
                    &&& old(self).reward_root == caller
                    &&& final(self).reward_on == on
                    &&& final(self).reward_interval == interval
                    &&& final(self).reward_amount == amount
                    &&& final(self).reward_root == old(self).reward_root
                    &&& final(self).reward_root_set == old(self).reward_root_set
                    &&& final(self).reward_balance == old(self).reward_balance
                    &&& final(self).reward_payouts == old(self).reward_payouts
                    &&& final(self).claim_counter == old(self).claim_counter
                    &&& same_stores(*old(self), *final(self))
                    &&& final(self).account_elevated_map@ == old(self).account_elevated_map@
                    &&& same_caps(*old(self), *final(self))
                },
                Err(e) => {
                    &&& e == Error::PermissionDenied
                    &&& old(self).reward_root != caller
                    &&& *final(self) == *old(self)
                },
            },
    {
        if self.reward_root == caller {
            self.reward_on = on;
            self.reward_interval = interval;
            self.reward_amount = amount;
            Ok(())
        } else {
            Err(Error::PermissionDenied)
        }
    }

    /// Root-only: adds the value the root paid in to the reward pool.
    pub fn add_reward_balance(&mut self, caller: AccountId, staked: Balance) -> (r: Result<
        (),
        Error,
    >)
        requires
            old(self).wf(),
        ensures
            final(self).wf(),
            match r {
                Ok(()) => {
                    &&& old(self).reward_root == caller
                    &&& final(self).reward_balance == old(self).reward_balance.saturating_add(
                        staked,
                    )
                    &&& final(self).reward_on == old(self).reward_on
                    &&& final(self).reward_interval == old(self).reward_interval
                    &&& final(self).reward_amount == old(self).reward_amount
                    &&& final(self).reward_root == old(self).reward_root
                    &&& final(self).reward_root_set == old(self).reward_root_set
                    &&& final(self).reward_payouts == old(self).reward_payouts
                    &&& final(self).claim_counter == old(self).claim_counter
                    &&& same_stores(*old(self), *final(self))
                    &&& final(self).account_elevated_map@ == old(self).account_elevated_map@
                    &&& same_caps(*old(self), *final(self))
                },
                Err(e) => {
                    &&& e == Error::PermissionDenied
                    &&& old(self).reward_root != caller
                    &&& *final(self) == *old(self)
                },
            },
    {
        if self.reward_root == caller {
            self.reward_balance = self.reward_balance.saturating_add(staked);
            Ok(())
        } else {
            Err(Error::PermissionDenied)
        }
    }

    /// Decides a reward-program shutdown without touching any state: on
    /// `Ok` the host owes the root the returned refund and must transfer
    /// it first; only once the transfer has gone through may it call
    /// [`ContractStorage::commit_shut_down_reward`].
    pub fn shut_down_reward(&self, caller: AccountId, contract_balance: Balance) -> (r: Result<
        Balance,
        Error,
    >)
        requires
            self.wf(),
        ensures
            r == shutdown_decision(*self, caller, contract_balance),
    {
        if self.reward_root != caller {
            Err(Error::PermissionDenied)
        } else if contract_balance > 10 && self.reward_balance > 0 {
            Ok(self.reward_balance.saturating_sub(10))
        } else {
            Err(Error::ZeroBalance)
        }
    }

    /// Applies a reward-program shutdown whose refund the host has
    /// transferred: the program switches off.
    pub fn commit_shut_down_reward(&mut self, caller: AccountId, contract_balance: Balance)
        requires
            old(self).wf(),
            shutdown_decision(*old(self), caller, contract_balance) is Ok,
        ensures
            final(self).wf(),
            final(self).reward_on == 0,
            final(self).reward_interval == old(self).reward_interval,
            final(self).reward_amount == old(self).reward_amount,
            final(self).reward_root == old(self).reward_root,
            final(self).reward_root_set == old(self).reward_root_set,
            final(self).reward_balance == old(self).reward_balance,
            final(self).reward_payouts == old(self).reward_payouts,
            final(self).claim_counter == old(self).claim_counter,
            same_stores(*old(self), *final(self)),
            final(self).account_elevated_map@ == old(self).account_elevated_map@,
            same_caps(*old(self), *final(self)),
    {
        self.reward_on = 0;
    }

    /// Whether the post that just raised the claim counter is owed a
    /// reward, and how much: the host transfers it first, and calls
    /// [`ContractStorage::commit_reward`] only on success.
    pub fn reward_due(&self, contract_balance: Balance) -> (r: Option<Balance>)
        requires
            self.wf(),
        ensures
            r == reward_due_now(*self, contract_balance),
    {
        let on_interval = match self.claim_counter.checked_rem_euclid(self.reward_interval) {
            Some(rem) => rem == 0,
            None => false,
        };
        if self.reward_on == 1 && self.reward_balance > self.reward_amount && contract_balance
            > self.reward_amount.saturating_add(10) && on_interval {
            Some(self.reward_amount)
        } else {
            None
        }
    }

    /// Applies a reward payout the host has transferred to `caller`: the
    /// pool is debited by exactly the reward and the cumulative payouts
    /// rise by it.
    pub fn commit_reward(&mut self, caller: AccountId, contract_balance: Balance) -> (ev:
        AccountRewardedSocial)
        requires
            old(self).wf(),
            reward_due_now(*old(self), contract_balance) is Some,
        ensures
            final(self).wf(),
            ({
                let payout = reward_due_now(*old(self), contract_balance)->Some_0;
                &&& final(self).reward_balance == old(self).reward_balance - payout
                &&& final(self).reward_payouts == old(self).reward_payouts.saturating_add(payout)
                &&& ev == (AccountRewardedSocial { claimant: caller, reward: payout })
            }),
            final(self).reward_on == old(self).reward_on,
            final(self).reward_interval == old(self).reward_interval,
            final(self).reward_amount == old(self).reward_amount,
            final(self).reward_root == old(self).reward_root,
            final(self).reward_root_set == old(self).reward_root_set,
            final(self).claim_counter == old(self).claim_counter,
            same_stores(*old(self), *final(self)),
            final(self).account_elevated_map@ == old(self).account_elevated_map@,
            same_caps(*old(self), *final(self)),
    {
        let payout = self.reward_amount;
        self.reward_balance = self.reward_balance.saturating_sub(payout);
        self.reward_payouts = self.reward_payouts.saturating_add(payout);
        AccountRewardedSocial { claimant: caller, reward: payout }
    }

    /// Root-only view of the reward ledger; anyone else sees defaults.
    pub fn get_reward_settings(&self, caller: AccountId) -> (r: RewardSettings)
        ensures
            r == (if caller == self.reward_root {
                RewardSettings {
                    reward_on: self.reward_on,
                    reward_root_set: self.reward_root_set,
                    reward_root: self.reward_root,
                    reward_interval: self.reward_interval,
                    reward_amount: self.reward_amount,
                    reward_balance: self.reward_balance,
                    reward_payouts: self.reward_payouts,
                    claim_counter: self.claim_counter,
                }
            } else {
                RewardSettings {
                    reward_on: 0,
                    reward_root_set: 0,
                    reward_root: 0,
                    reward_interval: 0,
                    reward_amount: 0,
                    reward_balance: 0,
                    reward_payouts: 0,
                    claim_counter: 0,
                }
            }),
    {
        if self.reward_root == caller {
            RewardSettings {
                reward_on: self.reward_on,
                reward_root_set: self.reward_root_set,
                reward_root: self.reward_root,
                reward_interval: self.reward_interval,
                reward_amount: self.reward_amount,
                reward_balance: self.reward_balance,
                reward_payouts: self.reward_payouts,
                claim_counter: self.claim_counter,
            }
        } else {
            RewardSettings::default()
        }
    }
}

} // verus!
