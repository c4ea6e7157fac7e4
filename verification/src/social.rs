//! Follow and block lists.
//!
//! Both are bounded FIFO ledgers per account.  Following also maintains a
//! follower count on the followed account.  A follow evicted from a full
//! ledger does not lower the evicted account's follower count; only an
//! explicit unfollow does.

use vstd::prelude::*;

use crate::ledger::{fifo_appended, ledger_append, ledger_contains, ledger_remove, removed_first};
use crate::storage::{
    blocks_of, follows_of, followers_of, map_updated_at, same_account_config, same_caps,
    same_message_system, same_paid_system, same_reward_state, ContractStorage,
};
use crate::types::{
    AccountId, Blocked, Error, Following, NewBlock, NewFollow, NewUnBlock, NewUnFollow,
};

verus! {

impl ContractStorage {
    /// Starts following `follow`.  Fails when the caller already follows
    /// the account or tries to follow themself; otherwise the follow goes
    /// to the back of the caller's bounded follow ledger (evicting the
    /// oldest follow when full) and the followed account gains a follower.
    pub fn follow_account(&mut self, caller: AccountId, follow: AccountId) -> (r: Result<
        NewFollow,
        Error,
    >)
        requires
            old(self).wf(),
        ensures
            final(self).wf(),
            match r {
                Ok(ev) => {
                    &&& caller != follow
                    &&& !follows_of(old(self).account_following_map@, caller).contains(follow)
                    &&& ev == (NewFollow { from: caller, is_following: follow })
                    &&& map_updated_at(
                        old(self).account_following_map@,
                        final(self).account_following_map@,
                        caller,
                    )
                    &&& follows_of(final(self).account_following_map@, caller) == fifo_appended(
                        follows_of(old(self).account_following_map@, caller),
                        old(self).following_cap,
                        follow,
                    )
                    &&& map_updated_at(
                        old(self).account_followers_map@,
                        final(self).account_followers_map@,
                        follow,
                    )
                    &&& followers_of(final(self).account_followers_map@, follow) == followers_of(
                        old(self).account_followers_map@,
                        follow,
                    ).saturating_add(1)
                    &&& final(self).account_blocked_map@ == old(self).account_blocked_map@
                    &&& same_message_system(*old(self), *final(self))
                    &&& same_paid_system(*old(self), *final(self))
                    &&& same_account_config(*old(self), *final(self))
                    &&& same_reward_state(*old(self), *final(self))
                    &&& same_caps(*old(self), *final(self))
                },
                Err(e) => {
                    &&& e == Error::CannotFollow
                    &&& (caller == follow || follows_of(
                        old(self).account_following_map@,
                        caller,
                    ).contains(follow))
                    &&& *final(self) == *old(self)
                },
            },
    {
        let already = match self.account_following_map.get(&caller) {
            Some(f) => ledger_contains(&f.following, follow),
            None => false,
        };
        if already || caller == follow {
            return Err(Error::CannotFollow);
        }
        let mut current = match self.account_following_map.remove(&caller) {
            Some(f) => f,
            None => Following { following: Vec::new() },
        };
        let cap = self.following_cap;
        ledger_append(&mut current.following, cap, follow);
        self.account_following_map.insert(caller, current);
        let count = match self.account_followers_map.get(&follow) {
            Some(c) => *c,
            None => 0,
        };
        self.account_followers_map.insert(follow, count.saturating_add(1));
        proof {
            assert(self.account_following_map@.dom() =~= old(
                self,
            ).account_following_map@.dom().insert(caller));
            assert(self.account_followers_map@.dom() =~= old(
                self,
            ).account_followers_map@.dom().insert(follow));
            assert forall|a: u64| #[trigger]
                self.account_following_map@.contains_key(a)
                    implies self.account_following_map@[a].following@.len()
                <= self.following_cap by {
                if a != caller {
                    assert(old(self).account_following_map@.contains_key(a));
                }
            }
            assert forall|a: u64, i: int, j: int|
                self.account_following_map@.contains_key(a) && 0 <= i < j
                    < self.account_following_map@[a].following@.len() implies #[trigger]
            self.account_following_map@[a].following@[i] != #[trigger]
            self.account_following_map@[a].following@[j] by {
                if a == caller {
                    let l0 = follows_of(old(self).account_following_map@, caller);
                    let l1 = self.account_following_map@[caller].following@;
                    if l0.len() >= old(self).following_cap {
                        if j < l1.len() - 1 {
                            assert(l1[i] == l0[i + 1]);
                            assert(l1[j] == l0[j + 1]);
                        } else {
                            assert(l1[j] == follow);
                            assert(l1[i] == l0[i + 1]);
                            assert(l0.contains(l0[i + 1]));
                        }
                    } else {
                        if j == l1.len() - 1 {
                            assert(l1[j] == follow);
                            assert(l1[i] == l0[i]);
                            assert(l0.contains(l0[i]));
                        }
                    }
                } else {
                    assert(old(self).account_following_map@.contains_key(a));
                }
            }
        }
        Ok(NewFollow { from: caller, is_following: follow })
    }

    /// Stops following `unfollow`.  Fails when the caller does not follow
    /// the account; otherwise the first ledger entry for it leaves and the
    /// unfollowed account loses a follower.
    pub fn unfollow_account(&mut self, caller: AccountId, unfollow: AccountId) -> (r: Result<
        NewUnFollow,
        Error,
    >)
        requires
            old(self).wf(),
        ensures
            final(self).wf(),
            match r {
                Ok(ev) => {
                    &&& follows_of(old(self).account_following_map@, caller).contains(unfollow)
                    &&& ev == (NewUnFollow { from: caller, stopped_following: unfollow })
                    &&& map_updated_at(
                        old(self).account_following_map@,
                        final(self).account_following_map@,
                        caller,
                    )
                    &&& removed_first(
                        follows_of(old(self).account_following_map@, caller),
                        follows_of(final(self).account_following_map@, caller),
                        unfollow,
                    )
                    &&& map_updated_at(
                        old(self).account_followers_map@,
                        final(self).account_followers_map@,
                        unfollow,
                    )
                    &&& followers_of(final(self).account_followers_map@, unfollow) == followers_of(
                        old(self).account_followers_map@,
                        unfollow,
                    ).saturating_sub(1)
                    &&& final(self).account_blocked_map@ == old(self).account_blocked_map@
                    &&& same_message_system(*old(self), *final(self))
                    &&& same_paid_system(*old(self), *final(self))
                    &&& same_account_config(*old(self), *final(self))
                    &&& same_reward_state(*old(self), *final(self))
                    &&& same_caps(*old(self), *final(self))
                },
                Err(e) => {
                    &&& e == Error::NotFollowing
                    &&& !follows_of(old(self).account_following_map@, caller).contains(unfollow)
                    &&& *final(self) == *old(self)
                },
            },
    {
        let present = match self.account_following_map.get(&caller) {
            Some(f) => ledger_contains(&f.following, unfollow),
            None => false,
        };
        if !present {
            return Err(Error::NotFollowing);
        }
        let mut current = self.account_following_map.remove(&caller).unwrap();
        ledger_remove(&mut current.following, unfollow);
        self.account_following_map.insert(caller, current);
        let count = match self.account_followers_map.get(&unfollow) {
            Some(c) => *c,
            None => 0,
        };
        self.account_followers_map.insert(unfollow, count.saturating_sub(1));
        proof {
            assert(self.account_following_map@.dom() =~= old(
                self,
            ).account_following_map@.dom().insert(caller));
            assert(self.account_followers_map@.dom() =~= old(
                self,
            ).account_followers_map@.dom().insert(unfollow));
            assert forall|a: u64| #[trigger]
                self.account_following_map@.contains_key(a)
                    implies self.account_following_map@[a].following@.len()
                <= self.following_cap by {
                if a != caller {
                    assert(old(self).account_following_map@.contains_key(a));
                }
            }
            assert forall|a: u64, i: int, j: int|
                self.account_following_map@.contains_key(a) && 0 <= i < j
                    < self.account_following_map@[a].following@.len() implies #[trigger]
            self.account_following_map@[a].following@[i] != #[trigger]
            self.account_following_map@[a].following@[j] by {
                if a == caller {
                    let l0 = follows_of(old(self).account_following_map@, caller);
                    let l1 = self.account_following_map@[caller].following@;
                    let k = choose|k: int|
                        0 <= k < l0.len() && #[trigger] l0[k] == unfollow && (forall|j2: int|
                            0 <= j2 < k ==> l0[j2] != unfollow) && l1 == l0.remove(k);
                    let oi = if i < k {
                        i
                    } else {
                        i + 1
                    };
                    let oj = if j < k {
                        j
                    } else {
                        j + 1
                    };
                    assert(l1[i] == l0[oi]);
                    assert(l1[j] == l0[oj]);
                } else {
                    assert(old(self).account_following_map@.contains_key(a));
                }
            }
        }
        Ok(NewUnFollow { from: caller, stopped_following: unfollow })
    }

    /// Blocks `block`.  Fails when already blocked or blocking oneself;
    /// otherwise the block goes to the back of the caller's bounded block
    /// ledger, evicting the oldest block when full.
    pub fn block_account(&mut self, caller: AccountId, block: AccountId) -> (r: Result<
        NewBlock,
        Error,
    >)
        requires
            old(self).wf(),
        ensures
            final(self).wf(),
            match r {
                Ok(ev) => {
                    &&& caller != block
                    &&& !blocks_of(old(self).account_blocked_map@, caller).contains(block)
                    &&& ev == (NewBlock { from: caller, blocked: block })
                    &&& map_updated_at(
                        old(self).account_blocked_map@,
                        final(self).account_blocked_map@,
                        caller,
                    )
                    &&& blocks_of(final(self).account_blocked_map@, caller) == fifo_appended(
                        blocks_of(old(self).account_blocked_map@, caller),
                        old(self).blocked_cap,
                        block,
                    )
                    &&& final(self).account_following_map@ == old(self).account_following_map@
                    &&& final(self).account_followers_map@ == old(self).account_followers_map@
                    &&& same_message_system(*old(self), *final(self))
                    &&& same_paid_system(*old(self), *final(self))
                    &&& same_account_config(*old(self), *final(self))
                    &&& same_reward_state(*old(self), *final(self))
                    &&& same_caps(*old(self), *final(self))
                },
                Err(e) => {
                    &&& e == Error::CannotBlock
                    &&& (caller == block || blocks_of(
                        old(self).account_blocked_map@,
                        caller,
                    ).contains(block))
                    &&& *final(self) == *old(self)
                },
            },
    {
        let already = match self.account_blocked_map.get(&caller) {
            Some(b) => ledger_contains(&b.blocked, block),
            None => false,
        };
        if already || caller == block {
            return Err(Error::CannotBlock);
        }
        let mut current = match self.account_blocked_map.remove(&caller) {
            Some(b) => b,
            None => Blocked { blocked: Vec::new() },
        };
        let cap = self.blocked_cap;
        ledger_append(&mut current.blocked, cap, block);
        self.account_blocked_map.insert(caller, current);
        proof {
            assert(self.account_blocked_map@.dom() =~= old(
                self,
            ).account_blocked_map@.dom().insert(caller));
            assert forall|a: u64| #[trigger]
                self.account_blocked_map@.contains_key(a)
                    implies self.account_blocked_map@[a].blocked@.len() <= self.blocked_cap by {
                if a != caller {
                    assert(old(self).account_blocked_map@.contains_key(a));
                }
            }
            assert forall|a: u64, i: int, j: int|
                self.account_blocked_map@.contains_key(a) && 0 <= i < j
                    < self.account_blocked_map@[a].blocked@.len() implies #[trigger]
            self.account_blocked_map@[a].blocked@[i] != #[trigger]
            self.account_blocked_map@[a].blocked@[j] by {
                if a == caller {
                    let l0 = blocks_of(old(self).account_blocked_map@, caller);
                    let l1 = self.account_blocked_map@[caller].blocked@;
                    if l0.len() >= old(self).blocked_cap {
                        if j < l1.len() - 1 {
                            assert(l1[i] == l0[i + 1]);
                            assert(l1[j] == l0[j + 1]);
                        } else {
                            assert(l1[j] == block);
                            assert(l1[i] == l0[i + 1]);
                            assert(l0.contains(l0[i + 1]));
                        }
                    } else {
                        if j == l1.len() - 1 {
                            assert(l1[j] == block);
                            assert(l1[i] == l0[i]);
                            assert(l0.contains(l0[i]));
                        }
                    }
                } else {
                    assert(old(self).account_blocked_map@.contains_key(a));
                }
            }
        }
        Ok(NewBlock { from: caller, blocked: block })
    }

    /// Unblocks `unblock`.  Fails when the account is not blocked;
    /// otherwise the first ledger entry for it leaves.
    pub fn unblock_account(&mut self, caller: AccountId, unblock: AccountId) -> (r: Result<
        NewUnBlock,
        Error,
    >)
        requires
            old(self).wf(),
        ensures
            final(self).wf(),
            match r {
                Ok(ev) => {
                    &&& blocks_of(old(self).account_blocked_map@, caller).contains(unblock)
                    &&& ev == (NewUnBlock { from: caller, unblocked: unblock })
                    &&& map_updated_at(
                        old(self).account_blocked_map@,
                        final(self).account_blocked_map@,
                        caller,
                    )
                    &&& removed_first(
                        blocks_of(old(self).account_blocked_map@, caller),
                        blocks_of(final(self).account_blocked_map@, caller),
                        unblock,
                    )
                    &&& final(self).account_following_map@ == old(self).account_following_map@
                    &&& final(self).account_followers_map@ == old(self).account_followers_map@
                    &&& same_message_system(*old(self), *final(self))
                    &&& same_paid_system(*old(self), *final(self))
                    &&& same_account_config(*old(self), *final(self))
                    &&& same_reward_state(*old(self), *final(self))
                    &&& same_caps(*old(self), *final(self))
                },
                Err(e) => {
                    &&& e == Error::NotBlocked
                    &&& !blocks_of(old(self).account_blocked_map@, caller).contains(unblock)
                    &&& *final(self) == *old(self)
                },
            },
    {
        let present = match self.account_blocked_map.get(&caller) {
            Some(b) => ledger_contains(&b.blocked, unblock),
            None => false,
        };
        if !present {
            return Err(Error::NotBlocked);
        }
        let mut current = self.account_blocked_map.remove(&caller).unwrap();
        ledger_remove(&mut current.blocked, unblock);
        self.account_blocked_map.insert(caller, current);
        proof {
            assert(self.account_blocked_map@.dom() =~= old(
                self,
            ).account_blocked_map@.dom().insert(caller));
            assert forall|a: u64| #[trigger]
                self.account_blocked_map@.contains_key(a)
                    implies self.account_blocked_map@[a].blocked@.len() <= self.blocked_cap by {
                if a != caller {
                    assert(old(self).account_blocked_map@.contains_key(a));
                }
            }
            assert forall|a: u64, i: int, j: int|
                self.account_blocked_map@.contains_key(a) && 0 <= i < j
                    < self.account_blocked_map@[a].blocked@.len() implies #[trigger]
            self.account_blocked_map@[a].blocked@[i] != #[trigger]
            self.account_blocked_map@[a].blocked@[j] by {
                if a == caller {
                    let l0 = blocks_of(old(self).account_blocked_map@, caller);
                    let l1 = self.account_blocked_map@[caller].blocked@;
                    let k = choose|k: int|
                        0 <= k < l0.len() && #[trigger] l0[k] == unblock && (forall|j2: int|
                            0 <= j2 < k ==> l0[j2] != unblock) && l1 == l0.remove(k);
                    let oi = if i < k {
                        i
                    } else {
                        i + 1
                    };
                    let oj = if j < k {
                        j
                    } else {
                        j + 1
                    };
                    assert(l1[i] == l0[oi]);
                    assert(l1[j] == l0[oj]);
                } else {
                    assert(old(self).account_blocked_map@.contains_key(a));
                }
            }
        }
        Ok(NewUnBlock { from: caller, unblocked: unblock })
    }
}

} // verus!
