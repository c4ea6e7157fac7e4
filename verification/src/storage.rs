//! The contract's state: keyed stores, reward ledger, capacities.
//!
//! Every store is an explicit key-value map handed plain keys; there is no
//! ambient storage.  The well-formedness predicate [`ContractStorage::wf`]
//! ties the stores together: ledger lists stay within their capacities and
//! only reference live entries of the right owner, paid messages never owe
//! more than they staked, and the username reverse index agrees with the
//! per-account settings.  Every entry point preserves it.

use vstd::hash_map::HashMapWithView;
use vstd::prelude::*;

use crate::tag_map::TagMap;
use crate::types::{
    AccountId, Balance, Blocked, Following, MessageDetails, MessageId, Messages,
    PaidMessageDetails, Settings,
};

verus! {

/// Default capacity of an account's free-message ledger.
pub const DEFAULT_MESSAGES_CAP: usize = 3;

/// Default capacity of an account's paid-message ledger.
pub const DEFAULT_PAID_CAP: usize = 55;

/// Default capacity of one topic's paid-message slot.
pub const DEFAULT_TOPIC_CAP: usize = 55;

/// Default capacity of one message's reply ledger.
pub const DEFAULT_REPLIES_CAP: usize = 100;

/// Default capacity of one paid message's endorser ledger.
pub const DEFAULT_ENDORSERS_CAP: usize = 400;

/// Default capacity of an account's follow ledger.
pub const DEFAULT_FOLLOWING_CAP: usize = 99;

/// Default capacity of an account's block ledger.
pub const DEFAULT_BLOCKED_CAP: usize = 490;

/// Reward interval a fresh contract starts with.
pub const DEFAULT_REWARD_INTERVAL: u128 = 1000000;

/// The whole mutable state of the feed core.
pub struct ContractStorage {
    pub account_settings_map: HashMapWithView<AccountId, Settings>,
    pub account_following_map: HashMapWithView<AccountId, Following>,
    pub account_followers_map: HashMapWithView<AccountId, u128>,
    pub account_blocked_map: HashMapWithView<AccountId, Blocked>,
    pub account_messages_map: HashMapWithView<AccountId, Messages>,
    pub account_paid_messages_map: HashMapWithView<AccountId, Messages>,
    pub account_elevated_map: HashMapWithView<AccountId, MessageId>,
    pub message_map: HashMapWithView<MessageId, MessageDetails>,
    pub reply_map: HashMapWithView<MessageId, MessageDetails>,
    pub paid_message_map: HashMapWithView<MessageId, PaidMessageDetails>,
    pub target_interests_map: TagMap<Messages>,
    pub message_reply_map: HashMapWithView<MessageId, Messages>,
    pub username_map: TagMap<AccountId>,
    pub reward_root_set: u8,
    pub reward_root: AccountId,
    pub reward_interval: u128,
    pub reward_amount: Balance,
    pub reward_on: u8,
    pub reward_balance: Balance,
    pub reward_payouts: Balance,
    pub claim_counter: u128,
    pub message_cap: usize,
    pub paid_cap: usize,
    pub topic_cap: usize,
    pub reply_cap: usize,
    pub endorser_cap: usize,
    pub following_cap: usize,
    pub blocked_cap: usize,
}

/// The ledger list stored under `k`, or empty when there is none.
pub open spec fn list_of(m: Map<u64, Messages>, k: u64) -> Seq<u64> {
    if m.contains_key(k) {
        m[k].messages@
    } else {
        Seq::empty()
    }
}

/// The topic slot stored under tag `t`, or empty when there is none.
pub open spec fn slot_of(m: Map<Seq<u8>, Messages>, t: Seq<u8>) -> Seq<u64> {
    if m.contains_key(t) {
        m[t].messages@
    } else {
        Seq::empty()
    }
}

/// The follow list stored under `k`, or empty when there is none.
pub open spec fn follows_of(m: Map<u64, Following>, k: u64) -> Seq<u64> {
    if m.contains_key(k) {
        m[k].following@
    } else {
        Seq::empty()
    }
}

/// The block list stored under `k`, or empty when there is none.
pub open spec fn blocks_of(m: Map<u64, Blocked>, k: u64) -> Seq<u64> {
    if m.contains_key(k) {
        m[k].blocked@
    } else {
        Seq::empty()
    }
}

/// The username an account registered, or empty when it never did.
pub open spec fn username_of(m: Map<u64, Settings>, a: u64) -> Seq<u8> {
    if m.contains_key(a) {
        m[a].username@
    } else {
        Seq::empty()
    }
}

/// The interests an account declared, or empty when it never did.
pub open spec fn interests_of(m: Map<u64, Settings>, a: u64) -> Seq<u8> {
    if m.contains_key(a) {
        m[a].interests@
    } else {
        Seq::empty()
    }
}

/// When an account last updated its settings, zero when it never did.
pub open spec fn last_update_of(m: Map<u64, Settings>, a: u64) -> u64 {
    if m.contains_key(a) {
        m[a].last_update
    } else {
        0
    }
}

/// The follower count of an account, zero when never followed.
pub open spec fn followers_of(m: Map<u64, u128>, a: u64) -> u128 {
    if m.contains_key(a) {
        m[a]
    } else {
        0
    }
}

/// A stored paid message is internally consistent: it sits under its own
/// key, never owes more than it staked, never exceeds its endorsement
/// budget, and its endorser ledger stays within capacity.
pub open spec fn paid_entry_ok(d: PaidMessageDetails, id: u64, endorser_cap: usize) -> bool {
    &&& d.message_id == id
    &&& d.staked_balance <= d.total_staked
    &&& d.endorser_count <= d.paid_endorser_max
    &&& d.endorsers@.len() <= endorser_cap
}

impl ContractStorage {
    /// A free message referenced by account `a`'s sent ledger is live and
    /// was authored by `a`.
    pub open spec fn sent_link_ok(self, a: u64, x: u64) -> bool {
        &&& self.message_map@.contains_key(x)
        &&& self.message_map@[x].from_acct == a
    }

    /// A paid message referenced by account `a`'s paid ledger is live and
    /// was authored by `a`.
    pub open spec fn paid_link_ok(self, a: u64, x: u64) -> bool {
        &&& self.paid_message_map@.contains_key(x)
        &&& self.paid_message_map@[x].from_acct == a
    }

    /// A paid message referenced by topic `t`'s slot is live and targets
    /// exactly that tag.
    pub open spec fn topic_link_ok(self, t: Seq<u8>, x: u64) -> bool {
        &&& self.paid_message_map@.contains_key(x)
        &&& self.paid_message_map@[x].target_interests@ == t
    }

    /// A reply referenced by message `p`'s reply ledger is live and
    /// replies exactly to `p`.
    pub open spec fn reply_link_ok(self, p: u64, x: u64) -> bool {
        &&& self.reply_map@.contains_key(x)
        &&& self.reply_map@[x].reply_to == p
    }

    /// Global well-formedness: capacities are positive, stored entries sit
    /// under their own keys and within their budgets, every ledger stays
    /// within capacity and references only live entries of its owner, and
    /// the username reverse index and the settings agree.
    pub open spec fn wf(self) -> bool {
        &&& self.message_cap >= 1
        &&& self.paid_cap >= 1
        &&& self.topic_cap >= 1
        &&& self.reply_cap >= 1
        &&& self.endorser_cap >= 1
        &&& self.following_cap >= 1
        &&& self.blocked_cap >= 1
        &&& self.username_map.wf()
        &&& self.target_interests_map.wf()
        &&& forall|id: u64| #[trigger]
            self.message_map@.contains_key(id) ==> self.message_map@[id].message_id == id
        &&& forall|id: u64| #[trigger]
            self.reply_map@.contains_key(id) ==> self.reply_map@[id].message_id == id
        &&& forall|id: u64| #[trigger]
            self.paid_message_map@.contains_key(id) ==> paid_entry_ok(
                self.paid_message_map@[id],
                id,
                self.endorser_cap,
            )
        &&& forall|a: u64| #[trigger]
            self.account_messages_map@.contains_key(a)
                ==> self.account_messages_map@[a].messages@.len() <= self.message_cap
        &&& forall|a: u64, i: int|
            #![trigger self.account_messages_map@[a].messages@[i]]
            self.account_messages_map@.contains_key(a) && 0 <= i
                < self.account_messages_map@[a].messages@.len() ==> self.sent_link_ok(
                a,
                self.account_messages_map@[a].messages@[i],
            )
        &&& forall|a: u64, i: int, j: int|
            #![trigger self.account_messages_map@[a].messages@[i], self.account_messages_map@[a].messages@[j]]
            self.account_messages_map@.contains_key(a) && 0 <= i < j
                < self.account_messages_map@[a].messages@.len()
                ==> self.account_messages_map@[a].messages@[i]
                != self.account_messages_map@[a].messages@[j]
        &&& forall|a: u64| #[trigger]
            self.account_paid_messages_map@.contains_key(a)
                ==> self.account_paid_messages_map@[a].messages@.len() <= self.paid_cap
        &&& forall|a: u64, i: int|
            #![trigger self.account_paid_messages_map@[a].messages@[i]]
            self.account_paid_messages_map@.contains_key(a) && 0 <= i
                < self.account_paid_messages_map@[a].messages@.len() ==> self.paid_link_ok(
                a,
                self.account_paid_messages_map@[a].messages@[i],
            )
        &&& forall|a: u64, i: int, j: int|
            #![trigger self.account_paid_messages_map@[a].messages@[i], self.account_paid_messages_map@[a].messages@[j]]
            self.account_paid_messages_map@.contains_key(a) && 0 <= i < j
                < self.account_paid_messages_map@[a].messages@.len()
                ==> self.account_paid_messages_map@[a].messages@[i]
                != self.account_paid_messages_map@[a].messages@[j]
        &&& forall|t: Seq<u8>| #[trigger]
            self.target_interests_map@.contains_key(t)
                ==> self.target_interests_map@[t].messages@.len() <= self.topic_cap
        &&& forall|t: Seq<u8>, i: int|
            #![trigger self.target_interests_map@[t].messages@[i]]
            self.target_interests_map@.contains_key(t) && 0 <= i
                < self.target_interests_map@[t].messages@.len() ==> self.topic_link_ok(
                t,
                self.target_interests_map@[t].messages@[i],
            )
        &&& forall|p: u64| #[trigger]
            self.message_reply_map@.contains_key(p)
                ==> self.message_reply_map@[p].messages@.len() <= self.reply_cap
        &&& forall|p: u64, i: int|
            #![trigger self.message_reply_map@[p].messages@[i]]
            self.message_reply_map@.contains_key(p) && 0 <= i
                < self.message_reply_map@[p].messages@.len() ==> self.reply_link_ok(
                p,
                self.message_reply_map@[p].messages@[i],
            )
        &&& forall|p: u64, i: int, j: int|
            #![trigger self.message_reply_map@[p].messages@[i], self.message_reply_map@[p].messages@[j]]
            self.message_reply_map@.contains_key(p) && 0 <= i < j
                < self.message_reply_map@[p].messages@.len()
                ==> self.message_reply_map@[p].messages@[i]
                != self.message_reply_map@[p].messages@[j]
        &&& forall|a: u64| #[trigger]
            self.account_following_map@.contains_key(a)
                ==> self.account_following_map@[a].following@.len() <= self.following_cap
        &&& forall|a: u64, i: int, j: int|
            #![trigger self.account_following_map@[a].following@[i], self.account_following_map@[a].following@[j]]
            self.account_following_map@.contains_key(a) && 0 <= i < j
                < self.account_following_map@[a].following@.len()
                ==> self.account_following_map@[a].following@[i]
                != self.account_following_map@[a].following@[j]
        &&& forall|a: u64| #[trigger]
            self.account_blocked_map@.contains_key(a)
                ==> self.account_blocked_map@[a].blocked@.len() <= self.blocked_cap
        &&& forall|a: u64, i: int, j: int|
            #![trigger self.account_blocked_map@[a].blocked@[i], self.account_blocked_map@[a].blocked@[j]]
            self.account_blocked_map@.contains_key(a) && 0 <= i < j
                < self.account_blocked_map@[a].blocked@.len()
                ==> self.account_blocked_map@[a].blocked@[i]
                != self.account_blocked_map@[a].blocked@[j]
        &&& forall|u: Seq<u8>| #[trigger]
            self.username_map@.contains_key(u) ==> {
                &&& self.account_settings_map@.contains_key(self.username_map@[u])
                &&& self.account_settings_map@[self.username_map@[u]].username@ == u
            }
        &&& forall|a: u64| #[trigger]
            self.account_settings_map@.contains_key(a)
                && self.account_settings_map@[a].username@.len() > 0 ==> {
                &&& self.username_map@.contains_key(self.account_settings_map@[a].username@)
                &&& self.username_map@[self.account_settings_map@[a].username@] == a
            }
    }

    /// Fresh contract with the given ledger capacities.
    pub fn new_with_limits(
        message_cap: usize,
        paid_cap: usize,
        topic_cap: usize,
        reply_cap: usize,
        endorser_cap: usize,
        following_cap: usize,
        blocked_cap: usize,
    ) -> (s: ContractStorage)
        requires
            message_cap >= 1,
            paid_cap >= 1,
            topic_cap >= 1,
            reply_cap >= 1,
            endorser_cap >= 1,
            following_cap >= 1,
            blocked_cap >= 1,
        ensures
            s.wf(),
            s.account_settings_map@ == Map::<u64, Settings>::empty(),
            s.account_following_map@ == Map::<u64, Following>::empty(),
            s.account_followers_map@ == Map::<u64, u128>::empty(),
            s.account_blocked_map@ == Map::<u64, Blocked>::empty(),
            s.account_messages_map@ == Map::<u64, Messages>::empty(),
            s.account_paid_messages_map@ == Map::<u64, Messages>::empty(),
            s.account_elevated_map@ == Map::<u64, MessageId>::empty(),
            s.message_map@ == Map::<u64, MessageDetails>::empty(),
            s.reply_map@ == Map::<u64, MessageDetails>::empty(),
            s.paid_message_map@ == Map::<u64, PaidMessageDetails>::empty(),
            s.target_interests_map@ == Map::<Seq<u8>, Messages>::empty(),
            s.message_reply_map@ == Map::<u64, Messages>::empty(),
            s.username_map@ == Map::<Seq<u8>, AccountId>::empty(),
            s.reward_root_set == 0,
            s.reward_root == 0,
            s.reward_interval == DEFAULT_REWARD_INTERVAL,
            s.reward_amount == 0,
            s.reward_on == 0,
            s.reward_balance == 0,
            s.reward_payouts == 0,
            s.claim_counter == 0,
            s.message_cap == message_cap,
            s.paid_cap == paid_cap,
            s.topic_cap == topic_cap,
            s.reply_cap == reply_cap,
            s.endorser_cap == endorser_cap,
            s.following_cap == following_cap,
            s.blocked_cap == blocked_cap,
    {
        ContractStorage {
            account_settings_map: HashMapWithView::new(),
            account_following_map: HashMapWithView::new(),
            account_followers_map: HashMapWithView::new(),
            account_blocked_map: HashMapWithView::new(),
            account_messages_map: HashMapWithView::new(),
            account_paid_messages_map: HashMapWithView::new(),
            account_elevated_map: HashMapWithView::new(),
            message_map: HashMapWithView::new(),
            reply_map: HashMapWithView::new(),
            paid_message_map: HashMapWithView::new(),
            target_interests_map: TagMap::new(),
            message_reply_map: HashMapWithView::new(),
            username_map: TagMap::new(),
            reward_root_set: 0,
            reward_root: 0,
            reward_interval: DEFAULT_REWARD_INTERVAL,
            reward_amount: 0,
            reward_on: 0,
            reward_balance: 0,
            reward_payouts: 0,
            claim_counter: 0,
            message_cap,
            paid_cap,
            topic_cap,
            reply_cap,
            endorser_cap,
            following_cap,
            blocked_cap,
        }
    }

    /// Fresh contract with the stock ledger capacities.
    pub fn new() -> (s: ContractStorage)
        ensures
            s.wf(),
            s.account_settings_map@ == Map::<u64, Settings>::empty(),
            s.account_following_map@ == Map::<u64, Following>::empty(),
            s.account_followers_map@ == Map::<u64, u128>::empty(),
            s.account_blocked_map@ == Map::<u64, Blocked>::empty(),
            s.account_messages_map@ == Map::<u64, Messages>::empty(),
            s.account_paid_messages_map@ == Map::<u64, Messages>::empty(),
            s.account_elevated_map@ == Map::<u64, MessageId>::empty(),
            s.message_map@ == Map::<u64, MessageDetails>::empty(),
            s.reply_map@ == Map::<u64, MessageDetails>::empty(),
            s.paid_message_map@ == Map::<u64, PaidMessageDetails>::empty(),
            s.target_interests_map@ == Map::<Seq<u8>, Messages>::empty(),
            s.message_reply_map@ == Map::<u64, Messages>::empty(),
            s.username_map@ == Map::<Seq<u8>, AccountId>::empty(),
            s.reward_root_set == 0,
            s.reward_root == 0,
            s.reward_interval == DEFAULT_REWARD_INTERVAL,
            s.reward_amount == 0,
            s.reward_on == 0,
            s.reward_balance == 0,
            s.reward_payouts == 0,
            s.claim_counter == 0,
            s.message_cap == DEFAULT_MESSAGES_CAP,
            s.paid_cap == DEFAULT_PAID_CAP,
            s.topic_cap == DEFAULT_TOPIC_CAP,
            s.reply_cap == DEFAULT_REPLIES_CAP,
            s.endorser_cap == DEFAULT_ENDORSERS_CAP,
            s.following_cap == DEFAULT_FOLLOWING_CAP,
            s.blocked_cap == DEFAULT_BLOCKED_CAP,
    {
        ContractStorage::new_with_limits(
            DEFAULT_MESSAGES_CAP,
            DEFAULT_PAID_CAP,
            DEFAULT_TOPIC_CAP,
            DEFAULT_REPLIES_CAP,
            DEFAULT_ENDORSERS_CAP,
            DEFAULT_FOLLOWING_CAP,
            DEFAULT_BLOCKED_CAP,
        )
    }

    /// Whether an account has registered settings at least once.
    pub fn verify_account(&self, verify: AccountId) -> (r: u8)
        ensures
            r == 1 <==> self.account_settings_map@.contains_key(verify),
            r == 0 <==> !self.account_settings_map@.contains_key(verify),
    {
        let mut result: u8 = 0;
        if self.account_settings_map.contains_key(&verify) {
            result = 1;
        }
        result
    }

    /// The accounts `user` follows, oldest first.
    pub fn get_account_following(&self, user: AccountId) -> (r: Vec<AccountId>)
        ensures
            r@ == follows_of(self.account_following_map@, user),
    {
        match self.account_following_map.get(&user) {
            Some(f) => crate::types::clone_keys(&f.following),
            None => Vec::new(),
        }
    }

    /// The keys of the messages `user` currently has stored, oldest first.
    pub fn get_messages_sent_by_account(&self, user: AccountId) -> (r: Vec<MessageId>)
        ensures
            r@ == list_of(self.account_messages_map@, user),
    {
        match self.account_messages_map.get(&user) {
            Some(m) => crate::types::clone_keys(&m.messages),
            None => Vec::new(),
        }
    }
}

/// `new_m` is `old_m` changed at key `k` alone (the key may be fresh).
pub open spec fn map_updated_at<K, W>(old_m: Map<K, W>, new_m: Map<K, W>, k: K) -> bool {
    &&& new_m.dom() == old_m.dom().insert(k)
    &&& forall|x: K| #[trigger] old_m.contains_key(x) && x != k ==> new_m[x] == old_m[x]
}

/// `new_m` is `old_m` with key `k` taken out (it need not have been there).
pub open spec fn map_removed_at<K, W>(old_m: Map<K, W>, new_m: Map<K, W>, k: K) -> bool {
    &&& new_m.dom() == old_m.dom().remove(k)
    &&& forall|x: K| #[trigger] old_m.contains_key(x) && x != k ==> new_m[x] == old_m[x]
}

/// The two contracts have the same follow, follower and block stores.
pub open spec fn same_social(a: ContractStorage, b: ContractStorage) -> bool {
    &&& a.account_following_map@ == b.account_following_map@
    &&& a.account_followers_map@ == b.account_followers_map@
    &&& a.account_blocked_map@ == b.account_blocked_map@
}

/// The two contracts have the same paid-message stores and topic index.
pub open spec fn same_paid_system(a: ContractStorage, b: ContractStorage) -> bool {
    &&& a.paid_message_map@ == b.paid_message_map@
    &&& a.account_paid_messages_map@ == b.account_paid_messages_map@
    &&& a.target_interests_map@ == b.target_interests_map@
}

/// The two contracts have the same free-message and reply stores.
pub open spec fn same_message_system(a: ContractStorage, b: ContractStorage) -> bool {
    &&& a.message_map@ == b.message_map@
    &&& a.reply_map@ == b.reply_map@
    &&& a.message_reply_map@ == b.message_reply_map@
    &&& a.account_messages_map@ == b.account_messages_map@
    &&& a.account_elevated_map@ == b.account_elevated_map@
}

/// The two contracts have the same settings store and username index.
pub open spec fn same_account_config(a: ContractStorage, b: ContractStorage) -> bool {
    &&& a.account_settings_map@ == b.account_settings_map@
    &&& a.username_map@ == b.username_map@
}

/// The two contracts have the same reward configuration (the moving parts
/// — pool balance, payouts, claim counter — are tracked separately).
pub open spec fn same_reward_config(a: ContractStorage, b: ContractStorage) -> bool {
    &&& a.reward_root_set == b.reward_root_set
    &&& a.reward_root == b.reward_root
    &&& a.reward_interval == b.reward_interval
    &&& a.reward_amount == b.reward_amount
    &&& a.reward_on == b.reward_on
}

/// The two contracts have the same whole reward ledger.
pub open spec fn same_reward_state(a: ContractStorage, b: ContractStorage) -> bool {
    &&& same_reward_config(a, b)
    &&& a.reward_balance == b.reward_balance
    &&& a.reward_payouts == b.reward_payouts
    &&& a.claim_counter == b.claim_counter
}

/// The two contracts have the same ledger capacities.
pub open spec fn same_caps(a: ContractStorage, b: ContractStorage) -> bool {
    &&& a.message_cap == b.message_cap
    &&& a.paid_cap == b.paid_cap
    &&& a.topic_cap == b.topic_cap
    &&& a.reply_cap == b.reply_cap
    &&& a.endorser_cap == b.endorser_cap
    &&& a.following_cap == b.following_cap
    &&& a.blocked_cap == b.blocked_cap
}

} // verus!
