//! Posting: free broadcast messages and replies.
//!
//! Each account keeps a bounded FIFO ledger of its sent messages.  A post
//! to a full ledger evicts the account's oldest message from the store and
//! cascades: every reply that existed solely as a child of the evicted
//! message is deleted with it.  Replies live in their own bounded ledger
//! per parent message; a reply to a full ledger evicts the parent's oldest
//! reply.  Every successful post (free or paid) raises the global reward
//! claim counter; the reward payout itself is decided and committed
//! through the functions in [`crate::rewards`].

use vstd::hash_map::HashMapWithView;
use vstd::prelude::*;

use crate::ledger::{fifo_appended, ledger_append};
use crate::storage::{
    list_of, map_updated_at, same_account_config, same_caps, same_paid_system, same_reward_config,
    same_social, username_of, ContractStorage,
};
use crate::types::{
    clone_bytes, AccountId, Error, MessageDetails, MessageId, Messages, MAX_CONTENT_LEN,
    NO_MESSAGE,
};

verus! {

/// Deletes the reply entries with the given keys from the reply store.
fn purge_reply_entries(reply_map: &mut HashMapWithView<u64, MessageDetails>, ids: &Vec<u64>)
    ensures
        final(reply_map)@ == old(reply_map)@.remove_keys(ids@.to_set()),
{
    let mut i: usize = 0;
    proof {
        assert(ids@.subrange(0, 0).to_set() =~= Set::<u64>::empty());
        assert(reply_map@ =~= reply_map@.remove_keys(ids@.subrange(0, 0).to_set()));
    }
    while i < ids.len()
        invariant
            i <= ids@.len(),
            reply_map@ == old(reply_map)@.remove_keys(ids@.subrange(0, i as int).to_set()),
        decreases ids@.len() - i,
    {
        let _removed = reply_map.remove(&ids[i]);
        proof {
            assert(ids@.subrange(0, (i + 1) as int) =~= ids@.subrange(0, i as int).push(
                ids@[i as int],
            ));
            assert forall|y: u64| #[trigger]
                ids@.subrange(0, (i + 1) as int).contains(y) implies ids@.subrange(
                0,
                i as int,
            ).contains(y) || y == ids@[i as int] by {
                let j = choose|j: int|
                    0 <= j < ids@.subrange(0, (i + 1) as int).len() && #[trigger] ids@.subrange(
                        0,
                        (i + 1) as int,
                    )[j] == y;
                if j < i {
                    assert(ids@.subrange(0, i as int)[j] == y);
                }
            }
            assert forall|y: u64|
                ids@.subrange(0, i as int).contains(y) || y == ids@[i as int] implies #[trigger]
            ids@.subrange(0, (i + 1) as int).contains(y) by {
                if ids@.subrange(0, i as int).contains(y) {
                    let j = choose|j: int|
                        0 <= j < ids@.subrange(0, i as int).len() && #[trigger] ids@.subrange(
                            0,
                            i as int,
                        )[j] == y;
                    assert(ids@.subrange(0, (i + 1) as int)[j] == y);
                } else {
                    assert(ids@.subrange(0, (i + 1) as int)[i as int] == y);
                }
            }
            assert(ids@.subrange(0, (i + 1) as int).to_set() =~= ids@.subrange(
                0,
                i as int,
            ).to_set().insert(ids@[i as int]));
            assert(reply_map@ =~= old(reply_map)@.remove_keys(
                ids@.subrange(0, (i + 1) as int).to_set(),
            ));
        }
        i = i + 1;
    }
    proof {
        assert(ids@.subrange(0, ids@.len() as int) =~= ids@);
    }
}

impl ContractStorage {
    /// Posts a top-level free broadcast message.  Fails on over-long
    /// inputs; otherwise the message enters the store and the caller's
    /// bounded sent ledger.  When that ledger is full, the caller's oldest
    /// message leaves the store together with its whole reply list.  Every
    /// successful post raises the reward claim counter by one (wrapping).
    ///
    /// The host supplies the caller's key, the fresh content-hash key for
    /// the message, and the block timestamp.
    pub fn send_message_public(
        &mut self,
        caller: AccountId,
        new_message: Vec<u8>,
        photo_or_youtube_link: Vec<u8>,
        website_or_document_link: Vec<u8>,
        new_message_id: MessageId,
        now: u64,
    ) -> (r: Result<(), Error>)
        requires
            old(self).wf(),
            new_message_id != NO_MESSAGE,
            !old(self).message_map@.contains_key(new_message_id),
            !old(self).reply_map@.contains_key(new_message_id),
            !old(self).paid_message_map@.contains_key(new_message_id),
        ensures
            final(self).wf(),
            match r {
                Ok(()) => ({
                    let v = *old(self);
                    let l0 = list_of(v.account_messages_map@, caller);
                    let evict = l0.len() >= v.message_cap;
                    let oldest = l0[0];
                    &&& new_message@.len() <= MAX_CONTENT_LEN
                    &&& photo_or_youtube_link@.len() <= MAX_CONTENT_LEN
                    &&& website_or_document_link@.len() <= MAX_CONTENT_LEN
                    &&& map_updated_at(
                        v.account_messages_map@,
                        final(self).account_messages_map@,
                        caller,
                    )
                    &&& list_of(final(self).account_messages_map@, caller) == fifo_appended(
                        l0,
                        v.message_cap,
                        new_message_id,
                    )
                    &&& final(self).message_map@.dom() == (if evict {
                        v.message_map@.dom().remove(oldest)
                    } else {
                        v.message_map@.dom()
                    }).insert(new_message_id)
                    &&& forall|x: u64| #[trigger]
                        v.message_map@.contains_key(x) && x != new_message_id && (!evict || x
                            != oldest) ==> final(self).message_map@[x] == v.message_map@[x]
                    &&& ({
                        let d = final(self).message_map@[new_message_id];
                        &&& d.message_id == new_message_id
                        &&& d.reply_to == NO_MESSAGE
                        &&& d.from_acct == caller
                        &&& d.username@ == username_of(v.account_settings_map@, caller)
                        &&& d.message == new_message
                        &&& d.link == photo_or_youtube_link
                        &&& d.link2 == website_or_document_link
                        &&& d.endorser_count == 0
                        &&& d.reply_count == 0
                        &&& d.timestamp == now
                    })
                    &&& final(self).reply_map@ == (if evict {
                        v.reply_map@.remove_keys(list_of(v.message_reply_map@, oldest).to_set())
                    } else {
                        v.reply_map@
                    })
                    &&& final(self).message_reply_map@ == (if evict {
                        v.message_reply_map@.remove(oldest)
                    } else {
                        v.message_reply_map@
                    })
                    &&& final(self).claim_counter == v.claim_counter.wrapping_add(1)
                    &&& final(self).account_elevated_map@ == v.account_elevated_map@
                    &&& final(self).reward_balance == v.reward_balance
                    &&& final(self).reward_payouts == v.reward_payouts
                    &&& same_social(v, *final(self))
                    &&& same_paid_system(v, *final(self))
                    &&& same_account_config(v, *final(self))
                    &&& same_reward_config(v, *final(self))
                    &&& same_caps(v, *final(self))
                }),
                Err(e) => {
                    &&& e == Error::DataTooLarge
                    &&& (new_message@.len() > MAX_CONTENT_LEN || photo_or_youtube_link@.len()
                        > MAX_CONTENT_LEN || website_or_document_link@.len() > MAX_CONTENT_LEN)
                    &&& *final(self) == *old(self)
                },
            },
    {
        if new_message.len() > MAX_CONTENT_LEN || photo_or_youtube_link.len() > MAX_CONTENT_LEN
            || website_or_document_link.len() > MAX_CONTENT_LEN {
            return Err(Error::DataTooLarge);
        }
        let fromusername = match self.account_settings_map.get(&caller) {
            Some(s) => clone_bytes(&s.username),
            None => Vec::new(),
        };
        let new_details = MessageDetails {
            message_id: new_message_id,
            reply_to: NO_MESSAGE,
            from_acct: caller,
            username: fromusername,
            message: new_message,
            link: photo_or_youtube_link,
            link2: website_or_document_link,
            endorser_count: 0,
            reply_count: 0,
            timestamp: now,
        };
        let mut current = match self.account_messages_map.remove(&caller) {
            Some(m) => m,
            None => Messages { messages: Vec::new() },
        };
        let cap = self.message_cap;
        let evicted = ledger_append(&mut current.messages, cap, new_message_id);
        match evicted {
            Some(oldest) => {
                proof {
                    assert(old(self).sent_link_ok(
                        caller,
                        list_of(old(self).account_messages_map@, caller)[0],
                    ));
                }
                let _dropped = self.message_map.remove(&oldest);
                let replies = match self.message_reply_map.remove(&oldest) {
                    Some(m) => m,
                    None => Messages { messages: Vec::new() },
                };
                purge_reply_entries(&mut self.reply_map, &replies.messages);
                proof {
                    if !old(self).message_reply_map@.contains_key(oldest) {
                        assert(replies.messages@.to_set() =~= Set::<u64>::empty());
                        assert(self.reply_map@ =~= old(self).reply_map@.remove_keys(
                            replies.messages@.to_set(),
                        ));
                    }
                }
            },
            None => {},
        }
        self.message_map.insert(new_message_id, new_details);
        self.account_messages_map.insert(caller, current);
        self.claim_counter = self.claim_counter.wrapping_add(1);
        proof {
            let v = *old(self);
            let l0 = list_of(v.account_messages_map@, caller);
            let evict = l0.len() >= v.message_cap;
            let oldest = l0[0];
            assert(self.account_messages_map@.dom() =~= v.account_messages_map@.dom().insert(
                caller,
            ));
            if evict {
                assert(self.message_map@.dom() =~= v.message_map@.dom().remove(oldest).insert(
                    new_message_id,
                ));
            } else {
                assert(self.message_map@.dom() =~= v.message_map@.dom().insert(new_message_id));
            }
            // Well-formedness: stored entries still sit under their keys.
            assert forall|x: u64| #[trigger]
                self.message_map@.contains_key(x) implies self.message_map@[x].message_id
                == x by {
                if x != new_message_id {
                    assert(v.message_map@.contains_key(x));
                }
            }
            // Sent ledgers stay within capacity.
            assert forall|a: u64| #[trigger]
                self.account_messages_map@.contains_key(a)
                    implies self.account_messages_map@[a].messages@.len() <= self.message_cap by {
                if a != caller {
                    assert(v.account_messages_map@.contains_key(a));
                }
            }
            // Sent ledgers reference live messages of their own author.
            assert forall|a: u64, i: int|
                self.account_messages_map@.contains_key(a) && 0 <= i
                    < self.account_messages_map@[a].messages@.len() implies self.sent_link_ok(
                a,
                #[trigger] self.account_messages_map@[a].messages@[i],
            ) by {
                let x = self.account_messages_map@[a].messages@[i];
                if a == caller {
                    let l1 = self.account_messages_map@[caller].messages@;
                    if x == new_message_id {
                    } else {
                        if evict {
                            assert(l1[i] == l0[i + 1]);
                            assert(v.sent_link_ok(caller, l0[i + 1]));
                            assert(l0[i + 1] != l0[0]);
                        } else {
                            assert(v.sent_link_ok(caller, l0[i]));
                        }
                    }
                } else {
                    assert(v.account_messages_map@.contains_key(a));
                    assert(v.sent_link_ok(a, x));
                    assert(v.message_map@[x].from_acct == a);
                    if evict {
                        assert(v.sent_link_ok(caller, l0[0]));
                        assert(v.message_map@[l0[0]].from_acct == caller);
                        assert(x != oldest);
                    }
                }
            }
            // Sent ledgers stay duplicate-free.
            assert forall|a: u64, i: int, j: int|
                self.account_messages_map@.contains_key(a) && 0 <= i < j
                    < self.account_messages_map@[a].messages@.len() implies #[trigger]
            self.account_messages_map@[a].messages@[i] != #[trigger]
            self.account_messages_map@[a].messages@[j] by {
                if a == caller {
                    let l1 = self.account_messages_map@[caller].messages@;
                    if evict {
                        if j < l1.len() - 1 {
                            assert(l1[i] == l0[i + 1]);
                            assert(l1[j] == l0[j + 1]);
                        } else {
                            assert(l1[j] == new_message_id);
                            assert(l1[i] == l0[i + 1]);
                            assert(v.sent_link_ok(caller, l0[i + 1]));
                        }
                    } else {
                        if j < l1.len() - 1 {
                        } else {
                            assert(l1[j] == new_message_id);
                            assert(v.sent_link_ok(caller, l0[i]));
                        }
                    }
                } else {
                    assert(v.account_messages_map@.contains_key(a));
                }
            }
            // Reply ledgers reference live replies of their own parent.
            assert forall|p: u64, i: int|
                self.message_reply_map@.contains_key(p) && 0 <= i
                    < self.message_reply_map@[p].messages@.len() implies self.reply_link_ok(
                p,
                #[trigger] self.message_reply_map@[p].messages@[i],
            ) by {
                assert(v.message_reply_map@.contains_key(p));
                let x = self.message_reply_map@[p].messages@[i];
                assert(v.reply_link_ok(p, x));
                if evict {
                    assert(p != oldest);
                    if list_of(v.message_reply_map@, oldest).to_set().contains(x) {
                        let rl = list_of(v.message_reply_map@, oldest);
                        let k = choose|k: int| 0 <= k < rl.len() && rl[k] == x;
                        assert(v.reply_link_ok(oldest, rl[k]));
                        assert(v.reply_map@[x].reply_to == oldest);
                        assert(false);
                    }
                }
            }
            // Reply ledgers stay duplicate-free, and within capacity.
            assert forall|p: u64, i: int, j: int|
                self.message_reply_map@.contains_key(p) && 0 <= i < j
                    < self.message_reply_map@[p].messages@.len() implies #[trigger]
            self.message_reply_map@[p].messages@[i] != #[trigger]
            self.message_reply_map@[p].messages@[j] by {
                assert(v.message_reply_map@.contains_key(p));
            }
            assert forall|p: u64| #[trigger]
                self.message_reply_map@.contains_key(p)
                    implies self.message_reply_map@[p].messages@.len() <= self.reply_cap by {
                assert(v.message_reply_map@.contains_key(p));
            }
            // Reply entries still sit under their own keys.
            assert forall|x: u64| #[trigger]
                self.reply_map@.contains_key(x) implies self.reply_map@[x].message_id == x by {
                assert(v.reply_map@.contains_key(x));
            }
        }
        Ok(())
    }

    /// Posts a reply to a top-level message.  Fails on over-long inputs
    /// or when the parent does not exist; otherwise the reply enters the
    /// reply store and the parent's bounded reply ledger (a full ledger
    /// evicts the parent's oldest reply), and the parent's reply counter
    /// rises.  Replies earn no reward and do not raise the claim counter.
    pub fn send_reply_public(
        &mut self,
        caller: AccountId,
        new_message: Vec<u8>,
        photo_or_youtube_link: Vec<u8>,
        website_or_document_link: Vec<u8>,
        replying_to: MessageId,
        new_message_id: MessageId,
        now: u64,
    ) -> (r: Result<(), Error>)
        requires
            old(self).wf(),
            new_message_id != NO_MESSAGE,
            !old(self).message_map@.contains_key(new_message_id),
            !old(self).reply_map@.contains_key(new_message_id),
            !old(self).paid_message_map@.contains_key(new_message_id),
        ensures
            final(self).wf(),
            match r {
                Ok(()) => ({
                    let v = *old(self);
                    let l0 = list_of(v.message_reply_map@, replying_to);
                    let evict = l0.len() >= v.reply_cap;
                    let oldest = l0[0];
                    &&& new_message@.len() <= MAX_CONTENT_LEN
                    &&& photo_or_youtube_link@.len() <= MAX_CONTENT_LEN
                    &&& website_or_document_link@.len() <= MAX_CONTENT_LEN
                    &&& v.message_map@.contains_key(replying_to)
                    &&& map_updated_at(
                        v.message_reply_map@,
                        final(self).message_reply_map@,
                        replying_to,
                    )
                    &&& list_of(final(self).message_reply_map@, replying_to) == fifo_appended(
                        l0,
                        v.reply_cap,
                        new_message_id,
                    )
                    &&& final(self).reply_map@.dom() == (if evict {
                        v.reply_map@.dom().remove(oldest)
                    } else {
                        v.reply_map@.dom()
                    }).insert(new_message_id)
                    &&& forall|x: u64| #[trigger]
                        v.reply_map@.contains_key(x) && x != new_message_id && (!evict || x
                            != oldest) ==> final(self).reply_map@[x] == v.reply_map@[x]
                    &&& ({
                        let d = final(self).reply_map@[new_message_id];
                        &&& d.message_id == new_message_id
                        &&& d.reply_to == replying_to
                        &&& d.from_acct == caller
                        &&& d.username@ == username_of(v.account_settings_map@, caller)
                        &&& d.message == new_message
                        &&& d.link == photo_or_youtube_link
                        &&& d.link2 == website_or_document_link
                        &&& d.endorser_count == 0
                        &&& d.reply_count == 0
                        &&& d.timestamp == now
                    })
                    &&& map_updated_at(v.message_map@, final(self).message_map@, replying_to)
                    &&& ({
                        let p0 = v.message_map@[replying_to];
                        let p1 = final(self).message_map@[replying_to];
                        &&& p1.reply_count == p0.reply_count.saturating_add(1)
                        &&& p1.message_id == p0.message_id
                        &&& p1.reply_to == p0.reply_to
                        &&& p1.from_acct == p0.from_acct
                        &&& p1.username == p0.username
                        &&& p1.message == p0.message
                        &&& p1.link == p0.link
                        &&& p1.link2 == p0.link2
                        &&& p1.endorser_count == p0.endorser_count
                        &&& p1.timestamp == p0.timestamp
                    })
                    &&& final(self).account_messages_map@ == v.account_messages_map@
                    &&& final(self).account_elevated_map@ == v.account_elevated_map@
                    &&& same_social(v, *final(self))
                    &&& same_paid_system(v, *final(self))
                    &&& same_account_config(v, *final(self))
                    &&& crate::storage::same_reward_state(v, *final(self))
                    &&& same_caps(v, *final(self))
                }),
                Err(e) => {
                    &&& *final(self) == *old(self)
                    &&& if new_message@.len() > MAX_CONTENT_LEN || photo_or_youtube_link@.len()
                        > MAX_CONTENT_LEN || website_or_document_link@.len() > MAX_CONTENT_LEN {
                        e == Error::DataTooLarge
                    } else {
                        &&& e == Error::ReplyingToMessageDoesNotExist
                        &&& !old(self).message_map@.contains_key(replying_to)
                    }
                },
            },
    {
        if new_message.len() > MAX_CONTENT_LEN || photo_or_youtube_link.len() > MAX_CONTENT_LEN
            || website_or_document_link.len() > MAX_CONTENT_LEN {
            return Err(Error::DataTooLarge);
        }
        if !self.message_map.contains_key(&replying_to) {
            return Err(Error::ReplyingToMessageDoesNotExist);
        }
        let fromusername = match self.account_settings_map.get(&caller) {
            Some(s) => clone_bytes(&s.username),
            None => Vec::new(),
        };
        let new_details = MessageDetails {
            message_id: new_message_id,
            reply_to: replying_to,
            from_acct: caller,
            username: fromusername,
            message: new_message,
            link: photo_or_youtube_link,
            link2: website_or_document_link,
            endorser_count: 0,
            reply_count: 0,
            timestamp: now,
        };
        let mut current_replies = match self.message_reply_map.remove(&replying_to) {
            Some(m) => m,
            None => Messages { messages: Vec::new() },
        };
        let cap = self.reply_cap;
        let evicted = ledger_append(&mut current_replies.messages, cap, new_message_id);
        match evicted {
            Some(oldest) => {
                proof {
                    assert(old(self).reply_link_ok(
                        replying_to,
                        list_of(old(self).message_reply_map@, replying_to)[0],
                    ));
                }
                let _dropped = self.reply_map.remove(&oldest);
            },
            None => {},
        }
        self.message_reply_map.insert(replying_to, current_replies);
        let mut parent = self.message_map.remove(&replying_to).unwrap();
        parent.reply_count = parent.reply_count.saturating_add(1);
        self.message_map.insert(replying_to, parent);
        self.reply_map.insert(new_message_id, new_details);
        proof {
            let v = *old(self);
            let l0 = list_of(v.message_reply_map@, replying_to);
            let evict = l0.len() >= v.reply_cap;
            let oldest = l0[0];
            assert(self.message_reply_map@.dom() =~= v.message_reply_map@.dom().insert(
                replying_to,
            ));
            assert(self.message_map@.dom() =~= v.message_map@.dom().insert(replying_to));
            if evict {
                assert(self.reply_map@.dom() =~= v.reply_map@.dom().remove(oldest).insert(
                    new_message_id,
                ));
            } else {
                assert(self.reply_map@.dom() =~= v.reply_map@.dom().insert(new_message_id));
            }
            // Entries still sit under their own keys.
            assert forall|x: u64| #[trigger]
                self.message_map@.contains_key(x) implies self.message_map@[x].message_id
                == x by {
                if x != replying_to {
                    assert(v.message_map@.contains_key(x));
                }
            }
            assert forall|x: u64| #[trigger]
                self.reply_map@.contains_key(x) implies self.reply_map@[x].message_id == x by {
                if x != new_message_id {
                    assert(v.reply_map@.contains_key(x));
                }
            }
            // Sent ledgers still reference live messages of their author.
            assert forall|a: u64, i: int|
                self.account_messages_map@.contains_key(a) && 0 <= i
                    < self.account_messages_map@[a].messages@.len() implies self.sent_link_ok(
                a,
                #[trigger] self.account_messages_map@[a].messages@[i],
            ) by {
                let x = self.account_messages_map@[a].messages@[i];
                assert(v.sent_link_ok(a, x));
                if x != replying_to {
                    assert(self.message_map@[x] == v.message_map@[x]);
                }
            }
            // Reply ledgers stay within capacity, duplicate-free, and
            // reference live replies of their own parent.
            assert forall|p: u64| #[trigger]
                self.message_reply_map@.contains_key(p)
                    implies self.message_reply_map@[p].messages@.len() <= self.reply_cap by {
                if p != replying_to {
                    assert(v.message_reply_map@.contains_key(p));
                }
            }
            assert forall|p: u64, i: int|
                self.message_reply_map@.contains_key(p) && 0 <= i
                    < self.message_reply_map@[p].messages@.len() implies self.reply_link_ok(
                p,
                #[trigger] self.message_reply_map@[p].messages@[i],
            ) by {
                let x = self.message_reply_map@[p].messages@[i];
                if p == replying_to {
                    let l1 = self.message_reply_map@[replying_to].messages@;
                    if x == new_message_id {
                    } else {
                        if evict {
                            assert(l1[i] == l0[i + 1]);
                            assert(v.reply_link_ok(replying_to, l0[i + 1]));
                            assert(l0[i + 1] != l0[0]);
                        } else {
                            assert(v.reply_link_ok(replying_to, l0[i]));
                        }
                        assert(x != new_message_id);
                    }
                } else {
                    assert(v.message_reply_map@.contains_key(p));
                    assert(v.reply_link_ok(p, x));
                    if evict {
                        assert(v.reply_link_ok(replying_to, l0[0]));
                        assert(v.reply_map@[l0[0]].reply_to == replying_to);
                        assert(x != oldest);
                    }
                    assert(x != new_message_id);
                }
            }
            assert forall|p: u64, i: int, j: int|
                self.message_reply_map@.contains_key(p) && 0 <= i < j
                    < self.message_reply_map@[p].messages@.len() implies #[trigger]
            self.message_reply_map@[p].messages@[i] != #[trigger]
            self.message_reply_map@[p].messages@[j] by {
                if p == replying_to {
                    let l1 = self.message_reply_map@[replying_to].messages@;
                    if evict {
                        if j < l1.len() - 1 {
                            assert(l1[i] == l0[i + 1]);
                            assert(l1[j] == l0[j + 1]);
                        } else {
                            assert(l1[j] == new_message_id);
                            assert(l1[i] == l0[i + 1]);
                            assert(v.reply_link_ok(replying_to, l0[i + 1]));
                        }
                    } else {
                        if j < l1.len() - 1 {
                        } else {
                            assert(l1[j] == new_message_id);
                            assert(v.reply_link_ok(replying_to, l0[i]));
                        }
                    }
                } else {
                    assert(v.message_reply_map@.contains_key(p));
                }
            }
        }
        Ok(())
    }
}

} // verus!
