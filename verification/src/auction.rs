//! Paid messages: the continuous reverse auction per interest tag.
//!
//! A paid message stakes coin and bids `payment_per_endorser` for a place
//! in its target topic's bounded slot.  Posting first applies the
//! author's own paid-message quota (a full personal ledger evicts the
//! author's oldest paid message from the store and from that message's
//! own topic).  A below-capacity topic admits unconditionally; a full
//! topic admits only a bid strictly above its lowest standing bid, and
//! then evicts the leftmost lowest bidder from the topic slot alone — the
//! loser keeps its store entry and stake, so the losing advertiser can
//! still reclaim the remainder by self-endorsement.  A bid at or below
//! the floor is rejected with nothing changed.

use vstd::prelude::*;

use crate::ledger::{fifo_appended, ledger_append, ledger_remove_all};
use crate::storage::{
    list_of, map_updated_at, same_account_config, same_caps, same_reward_config, same_social,
    slot_of, username_of, ContractStorage,
};
use crate::types::{
    bytes_eq, clone_bytes, clone_keys, AccountId, Balance, Error, MessageId, Messages,
    PaidMessageDetails, MAX_CONTENT_LEN, MAX_TARGET_LEN, NO_MESSAGE,
};

verus! {

/// The bid a paid-message key stands for: its per-endorser payment, or
/// zero when the key is not in the store.
pub open spec fn bid_of(pm: Map<u64, PaidMessageDetails>, x: u64) -> Balance {
    if pm.contains_key(x) {
        pm[x].endorser_payment
    } else {
        0
    }
}

/// `idx` points at the leftmost lowest bid in `slot`.
pub open spec fn is_lowest_bid_index(
    pm: Map<u64, PaidMessageDetails>,
    slot: Seq<u64>,
    idx: int,
) -> bool {
    &&& 0 <= idx < slot.len()
    &&& forall|k: int| 0 <= k < slot.len() ==> bid_of(pm, slot[k]) >= bid_of(pm, slot[idx])
    &&& forall|k: int| 0 <= k < idx ==> bid_of(pm, slot[k]) > bid_of(pm, slot[idx])
}

/// Whether posting another paid message would overflow `caller`'s paid
/// ledger and so evict the author's oldest paid message.
pub open spec fn quota_evicts(v: ContractStorage, caller: u64) -> bool {
    list_of(v.account_paid_messages_map@, caller).len() >= v.paid_cap
}

/// The author's oldest paid message (front of the paid ledger).
pub open spec fn quota_oldest(v: ContractStorage, caller: u64) -> u64 {
    list_of(v.account_paid_messages_map@, caller)[0]
}

/// The topic the author's oldest paid message targets.
pub open spec fn quota_old_tag(v: ContractStorage, caller: u64) -> Seq<u8> {
    v.paid_message_map@[quota_oldest(v, caller)].target_interests@
}

/// The target topic's slot as the admission decision sees it: the stored
/// slot, minus the author's oldest paid message when the author's quota
/// eviction would take it out of this very topic.
pub open spec fn effective_slot(v: ContractStorage, caller: u64, tag: Seq<u8>) -> Seq<u64> {
    let slot0 = slot_of(v.target_interests_map@, tag);
    if quota_evicts(v, caller) && quota_old_tag(v, caller) == tag {
        slot0.filter(|x: u64| x != quota_oldest(v, caller))
    } else {
        slot0
    }
}

/// Whether the target topic is at capacity for this post.
pub open spec fn topic_full(v: ContractStorage, caller: u64, tag: Seq<u8>) -> bool {
    effective_slot(v, caller, tag).len() >= v.topic_cap
}

impl ContractStorage {
    /// Index and value of the leftmost lowest bid in a non-empty slot.
    fn lowest_bid_index(&self, slot: &Vec<u64>) -> (r: (usize, Balance))
        requires
            self.wf(),
            slot@.len() >= 1,
        ensures
            is_lowest_bid_index(self.paid_message_map@, slot@, r.0 as int),
            r.1 == bid_of(self.paid_message_map@, slot@[r.0 as int]),
    {
        let mut low: Balance = match self.paid_message_map.get(&slot[0]) {
            Some(d) => d.endorser_payment,
            None => 0,
        };
        let mut idx: usize = 0;
        let mut i: usize = 1;
        while i < slot.len()
            invariant
                self.wf(),
                1 <= i <= slot@.len(),
                (idx as int) < i,
                low == bid_of(self.paid_message_map@, slot@[idx as int]),
                forall|k: int| 0 <= k < i ==> bid_of(self.paid_message_map@, slot@[k]) >= low,
                forall|k: int| 0 <= k < idx ==> bid_of(self.paid_message_map@, slot@[k]) > low,
            decreases slot@.len() - i,
        {
            let b: Balance = match self.paid_message_map.get(&slot[i]) {
                Some(d) => d.endorser_payment,
                None => 0,
            };
            if b < low {
                low = b;
                idx = i;
            }
            i = i + 1;
        }
        (idx, low)
    }

    /// Posts a paid message staking `staked` coin.  Fails on an
    /// over-long message body, link or target tag, and with `BidTooLow`
    /// — leaving everything unchanged — when the target topic is full
    /// and the bid does not beat its floor.
    /// Otherwise: a full personal paid ledger first evicts the author's
    /// oldest paid message from the store and from that message's own
    /// topic slot; a full target topic evicts its leftmost lowest bidder
    /// from the slot alone; the new message enters the store, the
    /// author's ledger and the topic slot, and the reward claim counter
    /// rises by one (wrapping).
    ///
    /// The host supplies the caller's key, the fresh content-hash key
    /// for the message, the attached stake and the block timestamp.
    #[verifier::rlimit(100)]
    #[verifier::spinoff_prover]
    pub fn send_paid_message_public(
        &mut self,
        caller: AccountId,
        new_message: Vec<u8>,
        photo_or_youtube_link: Vec<u8>,
        website_or_document_link: Vec<u8>,
        maximum_number_of_paid_endorsers: u128,
        payment_per_endorser: Balance,
        target_interests: Vec<u8>,
        staked: Balance,
        new_message_id: MessageId,
        now: u64,
    ) -> (r: Result<(), Error>)
        requires
            old(self).wf(),
            new_message_id != NO_MESSAGE,
            !old(self).message_map@.contains_key(new_message_id),
            !old(self).reply_map@.contains_key(new_message_id),
            !old(self).paid_message_map@.contains_key(new_message_id),
        ensures
            final(self).wf(),
            r is Err ==> *final(self) == *old(self),
            r is Err && (new_message@.len() > MAX_CONTENT_LEN || photo_or_youtube_link@.len()
                > MAX_CONTENT_LEN || target_interests@.len() > MAX_TARGET_LEN
                || website_or_document_link@.len() > MAX_CONTENT_LEN) ==> r == Err::<(), Error>(
                Error::DataTooLarge,
            ),
            r is Err && !(new_message@.len() > MAX_CONTENT_LEN || photo_or_youtube_link@.len()
                > MAX_CONTENT_LEN || target_interests@.len() > MAX_TARGET_LEN
                || website_or_document_link@.len() > MAX_CONTENT_LEN) ==> r == Err::<(), Error>(
                Error::BidTooLow,
            ),
            r == Err::<(), Error>(Error::BidTooLow) ==> topic_full(
                *old(self),
                caller,
                target_interests@,
            ) && exists|idx: int|
                {
                    &&& #[trigger] is_lowest_bid_index(
                        old(self).paid_message_map@,
                        effective_slot(*old(self), caller, target_interests@),
                        idx,
                    )
                    &&& payment_per_endorser <= bid_of(
                        old(self).paid_message_map@,
                        effective_slot(*old(self), caller, target_interests@)[idx],
                    )
                },
            r is Ok ==> new_message@.len() <= MAX_CONTENT_LEN && photo_or_youtube_link@.len()
                <= MAX_CONTENT_LEN && website_or_document_link@.len() <= MAX_CONTENT_LEN
                && target_interests@.len() <= MAX_TARGET_LEN,
            r is Ok ==> map_updated_at(
                old(self).account_paid_messages_map@,
                final(self).account_paid_messages_map@,
                caller,
            ) && list_of(final(self).account_paid_messages_map@, caller) == fifo_appended(
                list_of(old(self).account_paid_messages_map@, caller),
                old(self).paid_cap,
                new_message_id,
            ),
            r is Ok ==> final(self).paid_message_map@.dom() == (if quota_evicts(
                *old(self),
                caller,
            ) {
                old(self).paid_message_map@.dom().remove(quota_oldest(*old(self), caller))
            } else {
                old(self).paid_message_map@.dom()
            }).insert(new_message_id),
            r is Ok ==> forall|x: u64| #[trigger]
                old(self).paid_message_map@.contains_key(x) && x != new_message_id
                    && (!quota_evicts(*old(self), caller) || x != quota_oldest(*old(self), caller))
                    ==> final(self).paid_message_map@[x] == old(self).paid_message_map@[x],
            r is Ok ==> ({
                let d = final(self).paid_message_map@[new_message_id];
                &&& d.message_id == new_message_id
                &&& d.from_acct == caller
                &&& d.username@ == username_of(old(self).account_settings_map@, caller)
                &&& d.message == new_message
                &&& d.link == photo_or_youtube_link
                &&& d.link2 == website_or_document_link
                &&& d.endorser_count == 0
                &&& d.timestamp == now
                &&& d.paid_endorser_max == maximum_number_of_paid_endorsers
                &&& d.endorser_payment == payment_per_endorser
                &&& d.target_interests@ == target_interests@
                &&& d.total_staked == staked
                &&& d.endorsers@ == Seq::<AccountId>::empty()
                &&& d.staked_balance == staked
            }),
            r is Ok ==> final(self).target_interests_map@.dom()
                == old(self).target_interests_map@.dom().insert(target_interests@),
            r is Ok && topic_full(*old(self), caller, target_interests@) ==> exists|idx: int|
                {
                    &&& #[trigger] is_lowest_bid_index(
                        old(self).paid_message_map@,
                        effective_slot(*old(self), caller, target_interests@),
                        idx,
                    )
                    &&& payment_per_endorser > bid_of(
                        old(self).paid_message_map@,
                        effective_slot(*old(self), caller, target_interests@)[idx],
                    )
                    &&& slot_of(final(self).target_interests_map@, target_interests@)
                        == effective_slot(*old(self), caller, target_interests@).remove(idx).push(
                        new_message_id,
                    )
                },
            r is Ok && !topic_full(*old(self), caller, target_interests@) ==> slot_of(
                final(self).target_interests_map@,
                target_interests@,
            ) == effective_slot(*old(self), caller, target_interests@).push(new_message_id),
            r is Ok && quota_evicts(*old(self), caller) && quota_old_tag(*old(self), caller)
                != target_interests@ ==> slot_of(
                final(self).target_interests_map@,
                quota_old_tag(*old(self), caller),
            ) == slot_of(old(self).target_interests_map@, quota_old_tag(*old(self), caller)).filter(
                |x: u64| x != quota_oldest(*old(self), caller),
            ),
            r is Ok ==> forall|t: Seq<u8>| #[trigger]
                old(self).target_interests_map@.contains_key(t) && t != target_interests@
                    && (!quota_evicts(*old(self), caller) || t != quota_old_tag(
                    *old(self),
                    caller,
                )) ==> final(self).target_interests_map@[t] == old(self).target_interests_map@[t],
            r is Ok ==> final(self).claim_counter == old(self).claim_counter.wrapping_add(1)
                && final(self).reward_balance == old(self).reward_balance
                && final(self).reward_payouts == old(self).reward_payouts,
            r is Ok ==> crate::storage::same_message_system(*old(self), *final(self)) && same_social(
                *old(self),
                *final(self),
            ) && same_account_config(*old(self), *final(self)) && same_reward_config(
                *old(self),
                *final(self),
            ) && same_caps(*old(self), *final(self)),
    {
        if new_message.len() > MAX_CONTENT_LEN || photo_or_youtube_link.len() > MAX_CONTENT_LEN
            || target_interests.len() > MAX_TARGET_LEN || website_or_document_link.len()
            > MAX_CONTENT_LEN {
            return Err(Error::DataTooLarge);
        }
        // Look ahead, mutating nothing: which paid message the author's
        // quota would evict, and what the target slot looks like after
        // that eviction.
        let quota_evict: Option<MessageId> = match self.account_paid_messages_map.get(&caller) {
            Some(m) => if m.messages.len() >= self.paid_cap {
                proof {
                    assert(old(self).paid_link_ok(
                        caller,
                        list_of(old(self).account_paid_messages_map@, caller)[0],
                    ));
                }
                Some(m.messages[0])
            } else {
                None
            },
            None => None,
        };
        let old_tag_vec: Vec<u8> = match quota_evict {
            Some(o) => clone_bytes(&self.paid_message_map.get(&o).unwrap().target_interests),
            None => Vec::new(),
        };
        let mut slot: Vec<u64> = match self.target_interests_map.get(&target_interests) {
            Some(m) => clone_keys(&m.messages),
            None => Vec::new(),
        };
        match quota_evict {
            Some(o) => if bytes_eq(&old_tag_vec, &target_interests) {
                ledger_remove_all(&mut slot, o);
            },
            None => {},
        }
        proof {
            let v = *old(self);
            if quota_evicts(v, caller) {
                assert(quota_evict == Some(quota_oldest(v, caller)));
                assert(old_tag_vec@ == quota_old_tag(v, caller));
            }
            assert(slot@ == effective_slot(v, caller, target_interests@));
        }
        // The admission decision: a full topic only admits a bid strictly
        // above its floor.
        let mut evict_idx: Option<usize> = None;
        if slot.len() >= self.topic_cap {
            let (idx, low) = self.lowest_bid_index(&slot);
            if payment_per_endorser > low {
                evict_idx = Some(idx);
            } else {
                proof {
                    assert(topic_full(*old(self), caller, target_interests@));
                    assert(is_lowest_bid_index(
                        old(self).paid_message_map@,
                        effective_slot(*old(self), caller, target_interests@),
                        idx as int,
                    ));
                }
                return Err(Error::BidTooLow);
            }
        }
        // Admitted: commit all mutations.
        let mut plist = match self.account_paid_messages_map.remove(&caller) {
            Some(m) => m,
            None => Messages { messages: Vec::new() },
        };
        let paid_cap = self.paid_cap;
        let evicted = ledger_append(&mut plist.messages, paid_cap, new_message_id);
        match evicted {
            Some(o) => {
                let _dropped = self.paid_message_map.remove(&o);
                match self.target_interests_map.remove(&old_tag_vec) {
                    Some(mut om) => {
                        ledger_remove_all(&mut om.messages, o);
                        self.target_interests_map.insert(clone_bytes(&old_tag_vec), om);
                    },
                    None => {},
                }
            },
            None => {},
        }
        match evict_idx {
            Some(idx) => {
                slot.remove(idx);
            },
            None => {},
        }
        slot.push(new_message_id);
        self.target_interests_map.insert(clone_bytes(&target_interests), Messages {
            messages: slot,
        });
        let fromusername = match self.account_settings_map.get(&caller) {
            Some(s) => clone_bytes(&s.username),
            None => Vec::new(),
        };
        let new_details = PaidMessageDetails {
            message_id: new_message_id,
            from_acct: caller,
            username: fromusername,
            message: new_message,
            link: photo_or_youtube_link,
            link2: website_or_document_link,
            endorser_count: 0,
            timestamp: now,
            paid_endorser_max: maximum_number_of_paid_endorsers,
            endorser_payment: payment_per_endorser,
            target_interests: target_interests,
            total_staked: staked,
            endorsers: Vec::new(),
            staked_balance: staked,
        };
        self.paid_message_map.insert(new_message_id, new_details);
        self.account_paid_messages_map.insert(caller, plist);
        self.claim_counter = self.claim_counter.wrapping_add(1);
        proof {
            let v = *old(self);
            let l0 = list_of(v.account_paid_messages_map@, caller);
            let evict_quota = quota_evicts(v, caller);
            let oldest = quota_oldest(v, caller);
            let old_tag = quota_old_tag(v, caller);
            let slot0 = slot_of(v.target_interests_map@, target_interests@);
            let slot1 = effective_slot(v, caller, target_interests@);
            let full = topic_full(v, caller, target_interests@);
            assert(self.account_paid_messages_map@.dom()
                =~= v.account_paid_messages_map@.dom().insert(caller));
            assert(self.target_interests_map@.dom() =~= v.target_interests_map@.dom().insert(
                target_interests@,
            ));
            if evict_quota {
                assert(self.paid_message_map@.dom() =~= v.paid_message_map@.dom().remove(
                    oldest,
                ).insert(new_message_id));
            } else {
                assert(self.paid_message_map@.dom() =~= v.paid_message_map@.dom().insert(
                    new_message_id,
                ));
            }
            if full {
                let idx = evict_idx->Some_0 as int;
                assert(is_lowest_bid_index(v.paid_message_map@, slot1, idx));
                assert(slot_of(self.target_interests_map@, target_interests@) == slot1.remove(
                    idx,
                ).push(new_message_id));
            }
            // Paid entries still sit under their own keys and budgets.
            assert forall|x: u64| #[trigger]
                self.paid_message_map@.contains_key(x) implies crate::storage::paid_entry_ok(
                self.paid_message_map@[x],
                x,
                self.endorser_cap,
            ) by {
                if x != new_message_id {
                    assert(v.paid_message_map@.contains_key(x));
                }
            }
            // Paid ledgers stay within capacity.
            assert forall|a: u64| #[trigger]
                self.account_paid_messages_map@.contains_key(a)
                    implies self.account_paid_messages_map@[a].messages@.len()
                <= self.paid_cap by {
                if a != caller {
                    assert(v.account_paid_messages_map@.contains_key(a));
                }
            }
            // Paid ledgers reference live paid messages of their author.
            assert forall|a: u64, i: int|
                self.account_paid_messages_map@.contains_key(a) && 0 <= i
                    < self.account_paid_messages_map@[a].messages@.len()
                    implies self.paid_link_ok(
                a,
                #[trigger] self.account_paid_messages_map@[a].messages@[i],
            ) by {
                let x = self.account_paid_messages_map@[a].messages@[i];
                if a == caller {
                    let l1 = self.account_paid_messages_map@[caller].messages@;
                    if x == new_message_id {
                    } else {
                        if evict_quota {
                            assert(l1[i] == l0[i + 1]);
                            assert(v.paid_link_ok(caller, l0[i + 1]));
                            assert(l0[i + 1] != l0[0]);
                        } else {
                            assert(v.paid_link_ok(caller, l0[i]));
                        }
                    }
                } else {
                    assert(v.account_paid_messages_map@.contains_key(a));
                    assert(v.paid_link_ok(a, x));
                    if evict_quota {
                        assert(v.paid_link_ok(caller, l0[0]));
                        assert(v.paid_message_map@[l0[0]].from_acct == caller);
                        assert(x != oldest);
                    }
                }
            }
            // Paid ledgers stay duplicate-free.
            assert forall|a: u64, i: int, j: int|
                self.account_paid_messages_map@.contains_key(a) && 0 <= i < j
                    < self.account_paid_messages_map@[a].messages@.len() implies #[trigger]
            self.account_paid_messages_map@[a].messages@[i] != #[trigger]
            self.account_paid_messages_map@[a].messages@[j] by {
                if a == caller {
                    let l1 = self.account_paid_messages_map@[caller].messages@;
                    if evict_quota {
                        if j < l1.len() - 1 {
                            assert(l1[i] == l0[i + 1]);
                            assert(l1[j] == l0[j + 1]);
                        } else {
                            assert(l1[j] == new_message_id);
                            assert(l1[i] == l0[i + 1]);
                            assert(v.paid_link_ok(caller, l0[i + 1]));
                        }
                    } else {
                        if j < l1.len() - 1 {
                        } else {
                            assert(l1[j] == new_message_id);
                            assert(v.paid_link_ok(caller, l0[i]));
                        }
                    }
                } else {
                    assert(v.account_paid_messages_map@.contains_key(a));
                }
            }
            // Topic slots stay within capacity and reference live paid
            // messages that target exactly their tag.
            assert forall|t: Seq<u8>| #[trigger]
                self.target_interests_map@.contains_key(t)
                    implies self.target_interests_map@[t].messages@.len() <= self.topic_cap by {
                if t != target_interests@ && (!evict_quota || t != old_tag) {
                    assert(v.target_interests_map@.contains_key(t));
                } else if t == target_interests@ {
                } else {
                    assert(v.target_interests_map@.contains_key(t));
                    assert(self.target_interests_map@[t].messages@.len() <= slot_of(
                        v.target_interests_map@,
                        t,
                    ).len()) by {
                        crate::auction::lemma_filter_len(
                            slot_of(v.target_interests_map@, t),
                            oldest,
                        );
                    }
                }
            }
            assert forall|t: Seq<u8>, i: int|
                self.target_interests_map@.contains_key(t) && 0 <= i
                    < self.target_interests_map@[t].messages@.len() implies self.topic_link_ok(
                t,
                #[trigger] self.target_interests_map@[t].messages@[i],
            ) by {
                let x = self.target_interests_map@[t].messages@[i];
                if t == target_interests@ {
                    let s2 = self.target_interests_map@[t].messages@;
                    if x == new_message_id {
                    } else {
                        assert(slot1.contains(x)) by {
                            if full {
                                let idx = evict_idx->Some_0 as int;
                                assert(s2 == slot1.remove(idx).push(new_message_id));
                                assert(s2[i] == slot1.remove(idx)[i]);
                                if i < idx {
                                    assert(slot1[i] == x);
                                } else {
                                    assert(slot1[i + 1] == x);
                                }
                            } else {
                                assert(s2[i] == slot1[i]);
                            }
                        }
                        let k = choose|k: int| 0 <= k < slot1.len() && slot1[k] == x;
                        if evict_quota && old_tag == target_interests@ {
                            assert(slot0.contains(x) && x != oldest) by {
                                crate::auction::lemma_filter_member(slot0, oldest, x);
                            }
                        } else {
                            assert(slot0.contains(x));
                        }
                        let k0 = choose|k0: int| 0 <= k0 < slot0.len() && slot0[k0] == x;
                        assert(v.topic_link_ok(target_interests@, slot0[k0]));
                        if evict_quota {
                            if old_tag != target_interests@ {
                                assert(x != oldest);
                            }
                            assert(self.paid_message_map@[x] == v.paid_message_map@[x]);
                        }
                    }
                } else if evict_quota && t == old_tag {
                    let sv = slot_of(v.target_interests_map@, t);
                    assert(sv.contains(x) && x != oldest) by {
                        crate::auction::lemma_filter_member(sv, oldest, x);
                    }
                    let k0 = choose|k0: int| 0 <= k0 < sv.len() && sv[k0] == x;
                    assert(v.topic_link_ok(t, sv[k0]));
                } else {
                    assert(v.target_interests_map@.contains_key(t));
                    assert(v.topic_link_ok(t, x));
                    if evict_quota {
                        assert(v.topic_link_ok(t, x));
                        assert(v.paid_message_map@[x].target_interests@ == t);
                        assert(x != oldest);
                    }
                }
            }
        }
        Ok(())
    }
}

/// Filtering out one value never lengthens a sequence.
pub proof fn lemma_filter_len(s: Seq<u64>, o: u64)
    ensures
        s.filter(|x: u64| x != o).len() <= s.len(),
    decreases s.len(),
{
    reveal_with_fuel(Seq::filter, 2);
    if s.len() > 0 {
        lemma_filter_len(s.drop_last(), o);
    }
}

/// Membership in a filtered sequence: exactly the old members other than
/// the dropped value.
pub proof fn lemma_filter_member(s: Seq<u64>, o: u64, x: u64)
    requires
        s.filter(|x: u64| x != o).contains(x),
    ensures
        s.contains(x),
        x != o,
    decreases s.len(),
{
    reveal_with_fuel(Seq::filter, 2);
    if s.len() > 0 {
        let f = s.filter(|y: u64| y != o);
        let fd = s.drop_last().filter(|y: u64| y != o);
        if s.last() != o {
            assert(f == fd.push(s.last()));
            if x == s.last() {
                assert(s[s.len() - 1] == x);
            } else {
                let k = choose|k: int| 0 <= k < f.len() && f[k] == x;
                assert(fd[k] == x);
                assert(fd.contains(x));
                lemma_filter_member(s.drop_last(), o, x);
                let k2 = choose|k2: int| 0 <= k2 < s.drop_last().len() && s.drop_last()[k2] == x;
                assert(s[k2] == x);
            }
        } else {
            assert(f == fd);
            lemma_filter_member(s.drop_last(), o, x);
            let k2 = choose|k2: int| 0 <= k2 < s.drop_last().len() && s.drop_last()[k2] == x;
            assert(s[k2] == x);
        }
    }
}

} // verus!
