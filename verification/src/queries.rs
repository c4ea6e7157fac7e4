//! Read-only projections: message details, reply lists, feeds, profiles.
//!
//! Reads never fail: an absent key yields an empty or default value.
//! Each projection copies stored records out; nothing here mutates.

use vstd::prelude::*;

use crate::storage::{blocks_of, follows_of, followers_of, list_of, slot_of, ContractStorage};
use crate::types::{
    clone_bytes, copy_message_details, copy_paid_details, md_is_default, md_like, pmd_like,
    AccountId, MessageDetails, MessageId, MyFeed, MyPaidFeed, PaidMessageDetails,
};

verus! {

/// A record shown for `id`: the stored one, or all defaults when absent.
pub open spec fn shown_message_like(d: MessageDetails, s: ContractStorage, id: u64) -> bool {
    if s.message_map@.contains_key(id) {
        md_like(d, s.message_map@[id])
    } else {
        md_is_default(d)
    }
}

/// A paid message open for endorsement: it is stored, has endorsements
/// left and a positive remaining stake.
pub open spec fn paid_eligible(s: ContractStorage, x: u64) -> bool {
    &&& s.paid_message_map@.contains_key(x)
    &&& s.paid_message_map@[x].endorser_count < s.paid_message_map@[x].paid_endorser_max
    &&& s.paid_message_map@[x].staked_balance > 0
}

/// The open-for-endorsement paid messages among `ids`, in order.
pub open spec fn eligible_ids(s: ContractStorage, ids: Seq<u64>) -> Seq<u64> {
    ids.filter(|x: u64| paid_eligible(s, x))
}

/// The keys a paid-feed query for `keyword` shows: the open paid messages
/// of that topic, when the caller's interests match the keyword; nothing
/// otherwise.
pub open spec fn paid_feed_ids(s: ContractStorage, caller: u64, keyword: Seq<u8>) -> Seq<u64> {
    if crate::interest::is_substring_of(
        keyword,
        crate::storage::interests_of(s.account_settings_map@, caller),
    ) {
        eligible_ids(s, slot_of(s.target_interests_map@, keyword))
    } else {
        Seq::empty()
    }
}

/// The message an account most recently endorsed, or the sentinel key.
pub open spec fn elevated_of(m: Map<u64, u64>, a: u64) -> u64 {
    if m.contains_key(a) {
        m[a]
    } else {
        0
    }
}

/// The message keys the feed shows for a list of followed accounts, in
/// order: each account's sent messages, and the message it most recently
/// endorsed.
pub open spec fn follow_sources(s: ContractStorage, accts: Seq<u64>) -> Seq<u64>
    decreases accts.len(),
{
    if accts.len() == 0 {
        Seq::empty()
    } else {
        follow_sources(s, accts.drop_last()) + list_of(s.account_messages_map@, accts.last())
            + seq![elevated_of(s.account_elevated_map@, accts.last())]
    }
}

/// Every message key a caller's feed shows, in order: the caller's own
/// sent messages, followed by the sources of each followed account.
pub open spec fn feed_ids(s: ContractStorage, caller: u64) -> Seq<u64> {
    list_of(s.account_messages_map@, caller) + follow_sources(
        s,
        follows_of(s.account_following_map@, caller),
    )
}

/// A profile entry source: `true` keys the message store, `false` keys
/// the reply store.
pub open spec fn shown_entry_like(d: MessageDetails, s: ContractStorage, src: (bool, u64)) -> bool {
    if src.0 {
        shown_message_like(d, s, src.1)
    } else {
        if s.reply_map@.contains_key(src.1) {
            md_like(d, s.reply_map@[src.1])
        } else {
            md_is_default(d)
        }
    }
}

/// The entry sources a profile shows for a list of sent messages, in
/// order: each message followed by its stored replies.
pub open spec fn profile_sources(s: ContractStorage, ids: Seq<u64>) -> Seq<(bool, u64)>
    decreases ids.len(),
{
    if ids.len() == 0 {
        Seq::empty()
    } else {
        profile_sources(s, ids.drop_last()) + seq![(true, ids.last())] + list_of(
            s.message_reply_map@,
            ids.last(),
        ).map_values(|x: u64| (false, x))
    }
}

/// Every entry source a profile of `user` shows, in order: the sent
/// messages with their replies, and the message `user` most recently
/// endorsed.
pub open spec fn profile_ids(s: ContractStorage, user: u64) -> Seq<(bool, u64)> {
    profile_sources(s, list_of(s.account_messages_map@, user)) + seq![
        (true, elevated_of(s.account_elevated_map@, user)),
    ]
}

impl ContractStorage {
    /// The stored record of a free message or a default one when absent.
    pub fn get_details_for_message(&self, message_id: MessageId) -> (r: MessageDetails)
        ensures
            shown_message_like(r, *self, message_id),
    {
        match self.message_map.get(&message_id) {
            Some(d) => copy_message_details(d),
            None => MessageDetails::default(),
        }
    }

    /// The stored record of a paid message or a default one when absent.
    pub fn get_details_for_paid_message(&self, message_id: MessageId) -> (r: PaidMessageDetails)
        ensures
            self.paid_message_map@.contains_key(message_id) ==> pmd_like(
                r,
                self.paid_message_map@[message_id],
            ),
            !self.paid_message_map@.contains_key(message_id) ==> crate::types::pmd_is_default(r),
    {
        match self.paid_message_map.get(&message_id) {
            Some(d) => copy_paid_details(d),
            None => PaidMessageDetails::default(),
        }
    }

    /// The records of every reply to `message_id`, oldest first.
    pub fn get_replies_for_message(&self, message_id: MessageId) -> (r: Vec<MessageDetails>)
        requires
            self.wf(),
        ensures
            r@.len() == list_of(self.message_reply_map@, message_id).len(),
            forall|i: int|
                0 <= i < r@.len() ==> md_like(
                    #[trigger] r@[i],
                    self.reply_map@[list_of(self.message_reply_map@, message_id)[i]],
                ),
    {
        let mut results: Vec<MessageDetails> = Vec::new();
        let replies = match self.message_reply_map.get(&message_id) {
            Some(m) => &m.messages,
            None => {
                return results;
            },
        };
        let ghost ids = list_of(self.message_reply_map@, message_id);
        let mut i: usize = 0;
        while i < replies.len()
            invariant
                self.wf(),
                replies@ == ids,
                ids == list_of(self.message_reply_map@, message_id),
                self.message_reply_map@.contains_key(message_id),
                i <= ids.len(),
                results@.len() == i,
                forall|j: int|
                    0 <= j < i ==> md_like(#[trigger] results@[j], self.reply_map@[ids[j]]),
            decreases ids.len() - i,
        {
            proof {
                assert(self.reply_link_ok(message_id, ids[i as int]));
            }
            let d = self.reply_map.get(&replies[i]).unwrap();
            results.push(copy_message_details(d));
            i = i + 1;
        }
        results
    }

    /// The records of the paid messages `user` currently has stored,
    /// oldest first.
    pub fn get_account_paid_messages(&self, user: AccountId) -> (r: Vec<PaidMessageDetails>)
        requires
            self.wf(),
        ensures
            r@.len() == list_of(self.account_paid_messages_map@, user).len(),
            forall|i: int|
                0 <= i < r@.len() ==> pmd_like(
                    #[trigger] r@[i],
                    self.paid_message_map@[list_of(self.account_paid_messages_map@, user)[i]],
                ),
    {
        let mut results: Vec<PaidMessageDetails> = Vec::new();
        let idvec = match self.account_paid_messages_map.get(&user) {
            Some(m) => &m.messages,
            None => {
                return results;
            },
        };
        let ghost ids = list_of(self.account_paid_messages_map@, user);
        let mut i: usize = 0;
        while i < idvec.len()
            invariant
                self.wf(),
                idvec@ == ids,
                ids == list_of(self.account_paid_messages_map@, user),
                self.account_paid_messages_map@.contains_key(user),
                i <= ids.len(),
                results@.len() == i,
                forall|j: int|
                    0 <= j < i ==> pmd_like(#[trigger] results@[j], self.paid_message_map@[ids[j]]),
            decreases ids.len() - i,
        {
            proof {
                assert(self.paid_link_ok(user, ids[i as int]));
            }
            let d = self.paid_message_map.get(&idvec[i]).unwrap();
            results.push(copy_paid_details(d));
            i = i + 1;
        }
        results
    }

    /// Every stored paid message of the `keyword` topic that matches the
    /// caller's interests and still has endorsements and stake available.
    pub fn get_paid_feed(&self, caller: AccountId, keyword: Vec<u8>) -> (r: MyPaidFeed)
        requires
            self.wf(),
        ensures
            r.maxfeed == (if self.account_settings_map@.contains_key(caller) {
                self.account_settings_map@[caller].max_paid_feed
            } else {
                1000
            }),
            r.myinterests@ == crate::storage::interests_of(self.account_settings_map@, caller),
            r.blocked@ == blocks_of(self.account_blocked_map@, caller),
            r.mypaidfeed@.len() == paid_feed_ids(*self, caller, keyword@).len(),
            forall|i: int|
                0 <= i < r.mypaidfeed@.len() ==> pmd_like(
                    #[trigger] r.mypaidfeed@[i],
                    self.paid_message_map@[paid_feed_ids(*self, caller, keyword@)[i]],
                ),
    {
        let mut message_list: Vec<PaidMessageDetails> = Vec::new();
        let matched = match self.account_settings_map.get(&caller) {
            Some(s) => crate::interest::interests_match(&s.interests, &keyword),
            None => {
                let no_interests: Vec<u8> = Vec::new();
                crate::interest::interests_match(&no_interests, &keyword)
            },
        };
        if matched {
            let empty_ids: Vec<u64> = Vec::new();
            let idvec: &Vec<u64> = match self.target_interests_map.get(&keyword) {
                Some(m) => &m.messages,
                None => &empty_ids,
            };
            let ghost ids = slot_of(self.target_interests_map@, keyword@);
            let mut i: usize = 0;
            proof {
                assert(ids.subrange(0, 0) =~= Seq::<u64>::empty());
                reveal_with_fuel(Seq::filter, 1);
                assert(eligible_ids(*self, ids.subrange(0, 0)) =~= Seq::<u64>::empty());
            }
            while i < idvec.len()
                invariant
                    idvec@ == ids,
                    i <= ids.len(),
                    message_list@.len() == eligible_ids(*self, ids.subrange(0, i as int)).len(),
                    forall|j: int|
                        0 <= j < message_list@.len() ==> pmd_like(
                            #[trigger] message_list@[j],
                            self.paid_message_map@[eligible_ids(
                                *self,
                                ids.subrange(0, i as int),
                            )[j]],
                        ),
                decreases ids.len() - i,
            {
                proof {
                    assert(ids.subrange(0, (i + 1) as int).drop_last() =~= ids.subrange(
                        0,
                        i as int,
                    ));
                    reveal_with_fuel(Seq::filter, 2);
                }
                match self.paid_message_map.get(&idvec[i]) {
                    Some(d) => if d.endorser_count < d.paid_endorser_max && d.staked_balance > 0 {
                        message_list.push(copy_paid_details(d));
                    },
                    None => {},
                }
                i = i + 1;
            }
            proof {
                assert(ids.subrange(0, ids.len() as int) =~= ids);
            }
        }
        let maxfeed: u128 = match self.account_settings_map.get(&caller) {
            Some(s) => s.max_paid_feed,
            None => 1000,
        };
        let myinterests: Vec<u8> = match self.account_settings_map.get(&caller) {
            Some(s) => clone_bytes(&s.interests),
            None => Vec::new(),
        };
        let blocked: Vec<u64> = match self.account_blocked_map.get(&caller) {
            Some(b) => crate::types::clone_keys(&b.blocked),
            None => Vec::new(),
        };
        MyPaidFeed { maxfeed, myinterests, blocked, mypaidfeed: message_list }
    }

    /// The caller's feed: their own stored messages, and for each account
    /// they follow, that account's stored messages and its most recent
    /// endorsement.  Ordering and display limits are the consumer's
    /// business; replies come on request through
    /// [`ContractStorage::get_replies_for_message`].
    pub fn get_public_feed(&self, caller: AccountId) -> (r: MyFeed)
        ensures
            r.maxfeed == (if self.account_settings_map@.contains_key(caller) {
                self.account_settings_map@[caller].max_feed
            } else {
                1000
            }),
            r.blocked@ == blocks_of(self.account_blocked_map@, caller),
            r.myfeed@.len() == feed_ids(*self, caller).len(),
            forall|i: int|
                0 <= i < r.myfeed@.len() ==> shown_message_like(
                    #[trigger] r.myfeed@[i],
                    *self,
                    feed_ids(*self, caller)[i],
                ),
    {
        let mut message_list: Vec<MessageDetails> = Vec::new();
        let empty_ids: Vec<u64> = Vec::new();
        let my_idvec: &Vec<u64> = match self.account_messages_map.get(&caller) {
            Some(m) => &m.messages,
            None => &empty_ids,
        };
        let ghost own = list_of(self.account_messages_map@, caller);
        let mut i: usize = 0;
        while i < my_idvec.len()
            invariant
                my_idvec@ == own,
                i <= own.len(),
                message_list@.len() == i,
                forall|j: int|
                    0 <= j < i ==> shown_message_like(#[trigger] message_list@[j], *self, own[j]),
            decreases own.len() - i,
        {
            let d = match self.message_map.get(&my_idvec[i]) {
                Some(d) => copy_message_details(d),
                None => MessageDetails::default(),
            };
            message_list.push(d);
            i = i + 1;
        }
        let accountvec: &Vec<u64> = match self.account_following_map.get(&caller) {
            Some(f) => &f.following,
            None => &empty_ids,
        };
        let ghost fols = follows_of(self.account_following_map@, caller);
        let mut a: usize = 0;
        proof {
            assert(fols.subrange(0, 0) =~= Seq::<u64>::empty());
            assert(message_list@.len() == (own + follow_sources(
                *self,
                fols.subrange(0, 0),
            )).len());
        }
        while a < accountvec.len()
            invariant
                accountvec@ == fols,
                empty_ids@ == Seq::<u64>::empty(),
                a <= fols.len(),
                message_list@.len() == (own + follow_sources(*self, fols.subrange(0, a as int))).len(),
                forall|j: int|
                    0 <= j < message_list@.len() ==> shown_message_like(
                        #[trigger] message_list@[j],
                        *self,
                        (own + follow_sources(*self, fols.subrange(0, a as int)))[j],
                    ),
            decreases fols.len() - a,
        {
            let account = accountvec[a];
            let ghost base = own + follow_sources(*self, fols.subrange(0, a as int));
            let their: &Vec<u64> = match self.account_messages_map.get(&account) {
                Some(m) => &m.messages,
                None => &empty_ids,
            };
            let ghost alist = list_of(self.account_messages_map@, account);
            let mut k: usize = 0;
            while k < their.len()
                invariant
                    their@ == alist,
                    k <= alist.len(),
                    message_list@.len() == base.len() + k,
                    forall|j: int|
                        0 <= j < base.len() ==> shown_message_like(
                            #[trigger] message_list@[j],
                            *self,
                            base[j],
                        ),
                    forall|j: int|
                        base.len() <= j < message_list@.len() ==> shown_message_like(
                            #[trigger] message_list@[j],
                            *self,
                            alist[j - base.len()],
                        ),
                decreases alist.len() - k,
            {
                let d = match self.message_map.get(&their[k]) {
                    Some(d) => copy_message_details(d),
                    None => MessageDetails::default(),
                };
                message_list.push(d);
                k = k + 1;
            }
            let elevated_id: u64 = match self.account_elevated_map.get(&account) {
                Some(e) => *e,
                None => 0,
            };
            let d = match self.message_map.get(&elevated_id) {
                Some(d) => copy_message_details(d),
                None => MessageDetails::default(),
            };
            message_list.push(d);
            proof {
                assert(fols.subrange(0, (a + 1) as int).drop_last() =~= fols.subrange(0, a as int));
                assert(fols.subrange(0, (a + 1) as int).last() == fols[a as int]);
                let next = own + follow_sources(*self, fols.subrange(0, (a + 1) as int));
                assert(next =~= base + alist + seq![
                    elevated_of(self.account_elevated_map@, fols[a as int]),
                ]);
                assert forall|j: int|
                    0 <= j < message_list@.len() implies shown_message_like(
                    #[trigger] message_list@[j],
                    *self,
                    next[j],
                ) by {
                    if j < base.len() {
                        assert(next[j] == base[j]);
                    } else if j < base.len() + alist.len() {
                        assert(next[j] == alist[j - base.len()]);
                    } else {
                        assert(next[j] == elevated_of(self.account_elevated_map@, fols[a as int]));
                    }
                }
            }
            a = a + 1;
        }
        proof {
            assert(fols.subrange(0, fols.len() as int) =~= fols);
        }
        let maxfeed: u128 = match self.account_settings_map.get(&caller) {
            Some(s) => s.max_feed,
            None => 1000,
        };
        let blocked: Vec<u64> = match self.account_blocked_map.get(&caller) {
            Some(b) => crate::types::clone_keys(&b.blocked),
            None => Vec::new(),
        };
        MyFeed { maxfeed, blocked, myfeed: message_list }
    }

    /// The full profile of an account: username, follower count, follow
    /// list, and every stored message with its replies, ending with the
    /// account's most recent endorsement.
    pub fn get_account_profile(&self, user: AccountId) -> (r: crate::types::SocialProfile)
        ensures
            r.searched_account == user,
            r.username@ == crate::storage::username_of(self.account_settings_map@, user),
            r.followers == followers_of(self.account_followers_map@, user),
            r.following@ == follows_of(self.account_following_map@, user),
            r.message_list@.len() == profile_ids(*self, user).len(),
            forall|i: int|
                0 <= i < r.message_list@.len() ==> shown_entry_like(
                    #[trigger] r.message_list@[i],
                    *self,
                    profile_ids(*self, user)[i],
                ),
    {
        let mut message_list: Vec<MessageDetails> = Vec::new();
        let empty_ids: Vec<u64> = Vec::new();
        let idvec: &Vec<u64> = match self.account_messages_map.get(&user) {
            Some(m) => &m.messages,
            None => &empty_ids,
        };
        let ghost own = list_of(self.account_messages_map@, user);
        let mut i: usize = 0;
        proof {
            assert(own.subrange(0, 0) =~= Seq::<u64>::empty());
        }
        while i < idvec.len()
            invariant
                idvec@ == own,
                empty_ids@ == Seq::<u64>::empty(),
                i <= own.len(),
                message_list@.len() == profile_sources(*self, own.subrange(0, i as int)).len(),
                forall|j: int|
                    0 <= j < message_list@.len() ==> shown_entry_like(
                        #[trigger] message_list@[j],
                        *self,
                        profile_sources(*self, own.subrange(0, i as int))[j],
                    ),
            decreases own.len() - i,
        {
            let ghost base = profile_sources(*self, own.subrange(0, i as int));
            let mid = idvec[i];
            let d = match self.message_map.get(&mid) {
                Some(d) => copy_message_details(d),
                None => MessageDetails::default(),
            };
            message_list.push(d);
            let replies: &Vec<u64> = match self.message_reply_map.get(&mid) {
                Some(m) => &m.messages,
                None => &empty_ids,
            };
            let ghost rlist = list_of(self.message_reply_map@, mid);
            let mut k: usize = 0;
            while k < replies.len()
                invariant
                    replies@ == rlist,
                    k <= rlist.len(),
                    message_list@.len() == base.len() + 1 + k,
                    forall|j: int|
                        0 <= j < base.len() ==> shown_entry_like(
                            #[trigger] message_list@[j],
                            *self,
                            base[j],
                        ),
                    shown_entry_like(message_list@[base.len() as int], *self, (true, mid)),
                    forall|j: int|
                        base.len() + 1 <= j < message_list@.len() ==> shown_entry_like(
                            #[trigger] message_list@[j],
                            *self,
                            (false, rlist[j - base.len() - 1]),
                        ),
                decreases rlist.len() - k,
            {
                let rd = match self.reply_map.get(&replies[k]) {
                    Some(d) => copy_message_details(d),
                    None => MessageDetails::default(),
                };
                message_list.push(rd);
                k = k + 1;
            }
            proof {
                assert(own.subrange(0, (i + 1) as int).drop_last() =~= own.subrange(0, i as int));
                assert(own.subrange(0, (i + 1) as int).last() == own[i as int]);
                let next = profile_sources(*self, own.subrange(0, (i + 1) as int));
                assert(next =~= base + seq![(true, own[i as int])] + rlist.map_values(
                    |x: u64| (false, x),
                ));
                assert forall|j: int|
                    0 <= j < message_list@.len() implies shown_entry_like(
                    #[trigger] message_list@[j],
                    *self,
                    next[j],
                ) by {
                    if j < base.len() {
                        assert(next[j] == base[j]);
                    } else if j == base.len() {
                        assert(next[j] == (true, own[i as int]));
                    } else {
                        assert(next[j] == (false, rlist[j - base.len() - 1]));
                    }
                }
            }
            i = i + 1;
        }
        proof {
            assert(own.subrange(0, own.len() as int) =~= own);
        }
        let elevated_id: u64 = match self.account_elevated_map.get(&user) {
            Some(e) => *e,
            None => 0,
        };
        let d = match self.message_map.get(&elevated_id) {
            Some(d) => copy_message_details(d),
            None => MessageDetails::default(),
        };
        message_list.push(d);
        proof {
            let all = profile_ids(*self, user);
            assert(all =~= profile_sources(*self, own) + seq![
                (true, elevated_of(self.account_elevated_map@, user)),
            ]);
            assert forall|j: int|
                0 <= j < message_list@.len() implies shown_entry_like(
                #[trigger] message_list@[j],
                *self,
                all[j],
            ) by {
                if j < profile_sources(*self, own).len() {
                    assert(all[j] == profile_sources(*self, own)[j]);
                } else {
                    assert(all[j] == (true, elevated_of(self.account_elevated_map@, user)));
                }
            }
        }
        let user_name: Vec<u8> = match self.account_settings_map.get(&user) {
            Some(s) => clone_bytes(&s.username),
            None => Vec::new(),
        };
        let followers_count: u128 = match self.account_followers_map.get(&user) {
            Some(c) => *c,
            None => 0,
        };
        let following_list: Vec<u64> = match self.account_following_map.get(&user) {
            Some(f) => crate::types::clone_keys(&f.following),
            None => Vec::new(),
        };
        crate::types::SocialProfile {
            searched_account: user,
            username: user_name,
            followers: followers_count,
            following: following_list,
            message_list,
        }
    }
}

} // verus!
