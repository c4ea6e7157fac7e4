//! Endorsements: free upvotes and the paid-endorsement payout engine.
//!
//! Endorsing a free message bumps its counter.  Endorsing a paid message
//! pays the endorser from the message's stake, so it is split in two:
//! [`ContractStorage::elevate_paid_message`] decides, without mutating
//! anything, what transfer the host owes the caller, and
//! [`ContractStorage::commit_paid_elevation`] applies the state change
//! after the host reports that the transfer went through.  A failed
//! transfer simply means the commit never runs, so no state is lost.

use vstd::prelude::*;

use crate::interest::{interests_match, is_substring_of};
use crate::ledger::{fifo_appended, ledger_append, ledger_contains};
use crate::storage::{
    interests_of, map_updated_at, same_account_config, same_caps, same_paid_system,
    same_reward_state, same_social, ContractStorage,
};
use crate::types::{
    AccountId, Balance, Error, MessageElevated, MessageId, PaidMessageElevated,
};

verus! {

/// What a paid endorsement by `caller` of message `id` yields, given the
/// contract's spendable balance: the payout the host must transfer to the
/// caller, or the error.  Checked in order: the message must exist, the
/// caller must not already be a recorded endorser, the caller's declared
/// interests must match the message's target tag, the message must have
/// endorsements left, and both the message's stake and the contract
/// balance (above a reserve floor of 11) must cover the payout.  The
/// author endorsing their own message reclaims the whole remaining stake
/// instead of the per-endorser payment.
pub open spec fn paid_elevation_decision(
    s: ContractStorage,
    caller: AccountId,
    id: MessageId,
    contract_balance: Balance,
) -> Result<Balance, Error> {
    if !s.paid_message_map@.contains_key(id) {
        Err(Error::NonexistentPaidMessage)
    } else {
        let d = s.paid_message_map@[id];
        if d.endorsers@.contains(caller) {
            Err(Error::DuplicateEndorsement)
        } else if !is_substring_of(
            d.target_interests@,
            interests_of(s.account_settings_map@, caller),
        ) {
            Err(Error::NoInterestMatch)
        } else if d.endorser_count >= d.paid_endorser_max {
            Err(Error::NoMorePaidEndorsementsAvailable)
        } else {
            let payout: Balance = if caller == d.from_acct {
                d.staked_balance
            } else {
                d.endorser_payment
            };
            if contract_balance > payout.saturating_add(11) && d.staked_balance >= payout {
                Ok(payout)
            } else {
                Err(Error::ZeroBalance)
            }
        }
    }
}

impl ContractStorage {
    /// Endorses (upvotes) a free message.  Fails when the message does not
    /// exist or the caller wrote it; otherwise its endorsement counter
    /// rises and the endorsement is recorded as the caller's most recent.
    /// The policy here is deliberate and explicit: free messages keep no
    /// endorser list, so only self-endorsement is refused and a repeat
    /// endorsement by the same caller counts again.  (Paid messages track
    /// endorsers individually; see `elevate_paid_message`.)
    pub fn elevate_message(&mut self, caller: AccountId, this_message_id: MessageId) -> (r: Result<
        MessageElevated,
        Error,
    >)
        requires
            old(self).wf(),
        ensures
            final(self).wf(),
            match r {
                Ok(ev) => {
                    &&& old(self).message_map@.contains_key(this_message_id)
                    &&& old(self).message_map@[this_message_id].from_acct != caller
                    &&& ev == (MessageElevated {
                        from: old(self).message_map@[this_message_id].from_acct,
                        message_id: this_message_id,
                        endorser: caller,
                    })
                    &&& map_updated_at(
                        old(self).message_map@,
                        final(self).message_map@,
                        this_message_id,
                    )
                    &&& {
                        let d0 = old(self).message_map@[this_message_id];
                        let d1 = final(self).message_map@[this_message_id];
                        &&& d1.endorser_count == d0.endorser_count.saturating_add(1)
                        &&& d1.message_id == d0.message_id
                        &&& d1.reply_to == d0.reply_to
                        &&& d1.from_acct == d0.from_acct
                        &&& d1.username == d0.username
                        &&& d1.message == d0.message
                        &&& d1.link == d0.link
                        &&& d1.link2 == d0.link2
                        &&& d1.reply_count == d0.reply_count
                        &&& d1.timestamp == d0.timestamp
                    }
                    &&& map_updated_at(
                        old(self).account_elevated_map@,
                        final(self).account_elevated_map@,
                        caller,
                    )
                    &&& final(self).account_elevated_map@[caller] == this_message_id
                    &&& final(self).reply_map@ == old(self).reply_map@
                    &&& final(self).message_reply_map@ == old(self).message_reply_map@
                    &&& final(self).account_messages_map@ == old(self).account_messages_map@
                    &&& same_social(*old(self), *final(self))
                    &&& same_paid_system(*old(self), *final(self))
                    &&& same_account_config(*old(self), *final(self))
                    &&& same_reward_state(*old(self), *final(self))
                    &&& same_caps(*old(self), *final(self))
                },
                Err(e) => {
                    &&& *final(self) == *old(self)
                    &&& if !old(self).message_map@.contains_key(this_message_id) {
                        e == Error::NonexistentMessage
                    } else {
                        &&& e == Error::DuplicateEndorsement
                        &&& old(self).message_map@[this_message_id].from_acct == caller
                    }
                },
            },
    {
        let author = match self.message_map.get(&this_message_id) {
            Some(d) => d.from_acct,
            None => {
                return Err(Error::NonexistentMessage);
            },
        };
        if author == caller {
            return Err(Error::DuplicateEndorsement);
        }
        let mut details = self.message_map.remove(&this_message_id).unwrap();
        details.endorser_count = details.endorser_count.saturating_add(1);
        self.message_map.insert(this_message_id, details);
        self.account_elevated_map.insert(caller, this_message_id);
        proof {
            assert(self.message_map@.dom() =~= old(self).message_map@.dom().insert(
                this_message_id,
            ));
            assert(self.account_elevated_map@.dom() =~= old(
                self,
            ).account_elevated_map@.dom().insert(caller));
            assert forall|x: u64| #[trigger]
                self.message_map@.contains_key(x) implies self.message_map@[x].message_id
                == x by {
                if x != this_message_id {
                    assert(old(self).message_map@.contains_key(x));
                }
            }
            assert forall|a: u64, i: int|
                self.account_messages_map@.contains_key(a) && 0 <= i
                    < self.account_messages_map@[a].messages@.len() implies self.sent_link_ok(
                a,
                #[trigger] self.account_messages_map@[a].messages@[i],
            ) by {
                let x = self.account_messages_map@[a].messages@[i];
                assert(old(self).sent_link_ok(a, x));
                if x != this_message_id {
                    assert(self.message_map@[x] == old(self).message_map@[x]);
                }
            }
        }
        Ok(MessageElevated { from: author, message_id: this_message_id, endorser: caller })
    }

    /// Decides a paid endorsement without touching any state: on `Ok` the
    /// host owes the caller the returned payout and must transfer it
    /// first; only once the transfer has gone through may it call
    /// [`ContractStorage::commit_paid_elevation`].
    pub fn elevate_paid_message(
        &self,
        caller: AccountId,
        this_message_id: MessageId,
        contract_balance: Balance,
    ) -> (r: Result<Balance, Error>)
        requires
            self.wf(),
        ensures
            r == paid_elevation_decision(*self, caller, this_message_id, contract_balance),
    {
        let details = match self.paid_message_map.get(&this_message_id) {
            Some(d) => d,
            None => {
                return Err(Error::NonexistentPaidMessage);
            },
        };
        if ledger_contains(&details.endorsers, caller) {
            return Err(Error::DuplicateEndorsement);
        }
        let matched = match self.account_settings_map.get(&caller) {
            Some(s) => interests_match(&s.interests, &details.target_interests),
            None => {
                let no_interests: Vec<u8> = Vec::new();
                interests_match(&no_interests, &details.target_interests)
            },
        };
        if !matched {
            return Err(Error::NoInterestMatch);
        }
        if details.endorser_count >= details.paid_endorser_max {
            return Err(Error::NoMorePaidEndorsementsAvailable);
        }
        let payout: Balance = if caller == details.from_acct {
            details.staked_balance
        } else {
            details.endorser_payment
        };
        if contract_balance > payout.saturating_add(11) && details.staked_balance >= payout {
            Ok(payout)
        } else {
            Err(Error::ZeroBalance)
        }
    }

    /// Applies a paid endorsement whose payout the host has transferred:
    /// records the caller in the bounded endorser ledger, bumps the
    /// endorsement count and debits the stake by exactly the payout.
    /// Yields the event to emit — none when the author reclaimed their own
    /// stake, since self-reclaim is not a promotional endorsement.
    pub fn commit_paid_elevation(
        &mut self,
        caller: AccountId,
        this_message_id: MessageId,
        contract_balance: Balance,
    ) -> (ev: Option<PaidMessageElevated>)
        requires
            old(self).wf(),
            paid_elevation_decision(*old(self), caller, this_message_id, contract_balance) is Ok,
        ensures
            final(self).wf(),
            ({
                let payout = paid_elevation_decision(
                    *old(self),
                    caller,
                    this_message_id,
                    contract_balance,
                )->Ok_0;
                let d0 = old(self).paid_message_map@[this_message_id];
                let d1 = final(self).paid_message_map@[this_message_id];
                &&& map_updated_at(
                    old(self).paid_message_map@,
                    final(self).paid_message_map@,
                    this_message_id,
                )
                &&& d1.staked_balance == d0.staked_balance - payout
                &&& d1.endorser_count == d0.endorser_count + 1
                &&& d1.endorsers@ == fifo_appended(
                    d0.endorsers@,
                    old(self).endorser_cap,
                    caller,
                )
                &&& d1.endorsers@.contains(caller)
                &&& d1.message_id == d0.message_id
                &&& d1.from_acct == d0.from_acct
                &&& d1.username == d0.username
                &&& d1.message == d0.message
                &&& d1.link == d0.link
                &&& d1.link2 == d0.link2
                &&& d1.timestamp == d0.timestamp
                &&& d1.paid_endorser_max == d0.paid_endorser_max
                &&& d1.endorser_payment == d0.endorser_payment
                &&& d1.target_interests == d0.target_interests
                &&& d1.total_staked == d0.total_staked
                &&& ev == (if caller == d0.from_acct {
                    None
                } else {
                    Some(
                        PaidMessageElevated {
                            from: d0.from_acct,
                            message_id: this_message_id,
                            endorser: caller,
                        },
                    )
                })
            }),
            final(self).account_paid_messages_map@ == old(self).account_paid_messages_map@,
            final(self).target_interests_map@ == old(self).target_interests_map@,
            final(self).message_map@ == old(self).message_map@,
            final(self).reply_map@ == old(self).reply_map@,
            final(self).message_reply_map@ == old(self).message_reply_map@,
            final(self).account_messages_map@ == old(self).account_messages_map@,
            final(self).account_elevated_map@ == old(self).account_elevated_map@,
            same_social(*old(self), *final(self)),
            same_account_config(*old(self), *final(self)),
            same_reward_state(*old(self), *final(self)),
            same_caps(*old(self), *final(self)),
    {
        let mut details = self.paid_message_map.remove(&this_message_id).unwrap();
        let payout: Balance = if caller == details.from_acct {
            details.staked_balance
        } else {
            details.endorser_payment
        };
        let author = details.from_acct;
        let cap = self.endorser_cap;
        ledger_append(&mut details.endorsers, cap, caller);
        details.endorser_count = details.endorser_count + 1;
        details.staked_balance = details.staked_balance - payout;
        self.paid_message_map.insert(this_message_id, details);
        proof {
            let d0 = old(self).paid_message_map@[this_message_id];
            let d1 = self.paid_message_map@[this_message_id];
            assert(self.paid_message_map@.dom() =~= old(self).paid_message_map@.dom().insert(
                this_message_id,
            ));
            assert(d1.endorsers@[d1.endorsers@.len() - 1] == caller);
            assert forall|x: u64| #[trigger]
                self.paid_message_map@.contains_key(x) implies crate::storage::paid_entry_ok(
                self.paid_message_map@[x],
                x,
                self.endorser_cap,
            ) by {
                if x != this_message_id {
                    assert(old(self).paid_message_map@.contains_key(x));
                }
            }
            assert forall|a: u64, i: int|
                self.account_paid_messages_map@.contains_key(a) && 0 <= i
                    < self.account_paid_messages_map@[a].messages@.len() implies self.paid_link_ok(
                a,
                #[trigger] self.account_paid_messages_map@[a].messages@[i],
            ) by {
                let x = self.account_paid_messages_map@[a].messages@[i];
                assert(old(self).paid_link_ok(a, x));
                if x != this_message_id {
                    assert(self.paid_message_map@[x] == old(self).paid_message_map@[x]);
                }
            }
            assert forall|t: Seq<u8>, i: int|
                self.target_interests_map@.contains_key(t) && 0 <= i
                    < self.target_interests_map@[t].messages@.len() implies self.topic_link_ok(
                t,
                #[trigger] self.target_interests_map@[t].messages@[i],
            ) by {
                let x = self.target_interests_map@[t].messages@[i];
                assert(old(self).topic_link_ok(t, x));
                if x != this_message_id {
                    assert(self.paid_message_map@[x] == old(self).paid_message_map@[x]);
                }
            }
        }
        if caller == author {
            None
        } else {
            Some(
                PaidMessageElevated { from: author, message_id: this_message_id, endorser: caller },
            )
        }
    }
}

} // verus!
