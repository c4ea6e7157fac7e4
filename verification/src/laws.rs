//! The engine's global guarantees, stated once and proved from the
//! well-formedness invariant and the entry points' contracts.

use vstd::prelude::*;

use crate::auction::{bid_of, is_lowest_bid_index};
use crate::endorse::paid_elevation_decision;
use crate::interest::is_substring_of;
use crate::rewards::reward_due_now;
use crate::storage::{interests_of, same_reward_config, ContractStorage};
use crate::types::{AccountId, Balance, Error, MessageId};

verus! {

/// A paid message never owes more than it staked: in every well-formed
/// state — and every entry point yields a well-formed state — the
/// remaining staked balance of every stored paid message is at most its
/// total stake (and, as an unsigned amount, at least zero).
pub proof fn lemma_stake_never_overdrawn(s: ContractStorage, id: MessageId)
    requires
        s.wf(),
        s.paid_message_map@.contains_key(id),
    ensures
        s.paid_message_map@[id].staked_balance <= s.paid_message_map@[id].total_staked,
{
}

/// A paid message never records more endorsements than its cap: in every
/// well-formed state the endorsement count of every stored paid message
/// is at most its declared maximum.
pub proof fn lemma_endorsements_capped(s: ContractStorage, id: MessageId)
    requires
        s.wf(),
        s.paid_message_map@.contains_key(id),
    ensures
        s.paid_message_map@[id].endorser_count <= s.paid_message_map@[id].paid_endorser_max,
{
}

/// No double pay: once an account is recorded as an endorser of a paid
/// message, a further paid endorsement of that message by that account
/// is refused — whatever the contract's balance — so it can never be
/// paid for the same message twice.  (Committing a payout records the
/// endorser, by the contract of `commit_paid_elevation`.)
pub proof fn lemma_no_double_pay(
    s: ContractStorage,
    caller: AccountId,
    id: MessageId,
    contract_balance: Balance,
)
    requires
        s.paid_message_map@.contains_key(id),
        s.paid_message_map@[id].endorsers@.contains(caller),
    ensures
        paid_elevation_decision(s, caller, id, contract_balance) == Err::<Balance, Error>(
            Error::DuplicateEndorsement,
        ),
{
}

/// The auction's eviction target is unambiguous: a slot has exactly one
/// leftmost lowest bid, so "admit and evict the minimum" names a single
/// loser.
pub proof fn lemma_lowest_bid_unique(
    pm: Map<u64, crate::types::PaidMessageDetails>,
    slot: Seq<u64>,
    i: int,
    j: int,
)
    requires
        is_lowest_bid_index(pm, slot, i),
        is_lowest_bid_index(pm, slot, j),
    ensures
        i == j,
{
    if i < j {
        assert(bid_of(pm, slot[i]) > bid_of(pm, slot[j]));
        assert(bid_of(pm, slot[i]) >= bid_of(pm, slot[j]));
    }
    if j < i {
        assert(bid_of(pm, slot[j]) > bid_of(pm, slot[i]));
    }
}

/// Usernames are unique: in every well-formed state, two accounts with
/// registered settings that carry the same non-empty username are one
/// and the same account.  (`update_settings` keeps states well-formed
/// while releasing an old name and claiming the new one atomically.)
pub proof fn lemma_username_unique(s: ContractStorage, a: AccountId, b: AccountId)
    requires
        s.wf(),
        s.account_settings_map@.contains_key(a),
        s.account_settings_map@.contains_key(b),
        s.account_settings_map@[a].username@.len() > 0,
        s.account_settings_map@[a].username@ == s.account_settings_map@[b].username@,
    ensures
        a == b,
{
    let u = s.account_settings_map@[a].username@;
    assert(s.username_map@[u] == a);
    assert(s.username_map@[u] == b);
}

/// An eligible endorser who is not the author is paid exactly the
/// message's standing bid: with the message stored, the caller not yet
/// recorded, interests matching, endorsements left, the stake covering
/// one payment and the contract balance above payment plus the reserve
/// floor, the decision owes precisely `endorser_payment` — never more,
/// never less.
pub proof fn lemma_paid_endorsement_pays_the_bid(
    s: ContractStorage,
    caller: AccountId,
    id: MessageId,
    contract_balance: Balance,
)
    requires
        s.paid_message_map@.contains_key(id),
        !s.paid_message_map@[id].endorsers@.contains(caller),
        caller != s.paid_message_map@[id].from_acct,
        is_substring_of(
            s.paid_message_map@[id].target_interests@,
            interests_of(s.account_settings_map@, caller),
        ),
        s.paid_message_map@[id].endorser_count < s.paid_message_map@[id].paid_endorser_max,
        contract_balance > s.paid_message_map@[id].endorser_payment.saturating_add(11),
        s.paid_message_map@[id].staked_balance >= s.paid_message_map@[id].endorser_payment,
    ensures
        paid_elevation_decision(s, caller, id, contract_balance) == Ok::<Balance, Error>(
            s.paid_message_map@[id].endorser_payment,
        ),
{
}

/// The author reclaims the whole remaining stake, not the per-endorser
/// payment: under the same eligibility conditions, a self-endorsement's
/// decision owes exactly `staked_balance`, after which nothing is left
/// to pay out.
pub proof fn lemma_author_reclaims_remainder(
    s: ContractStorage,
    id: MessageId,
    contract_balance: Balance,
)
    requires
        s.paid_message_map@.contains_key(id),
        !s.paid_message_map@[id].endorsers@.contains(s.paid_message_map@[id].from_acct),
        is_substring_of(
            s.paid_message_map@[id].target_interests@,
            interests_of(s.account_settings_map@, s.paid_message_map@[id].from_acct),
        ),
        s.paid_message_map@[id].endorser_count < s.paid_message_map@[id].paid_endorser_max,
        contract_balance > s.paid_message_map@[id].staked_balance.saturating_add(11),
    ensures
        paid_elevation_decision(
            s,
            s.paid_message_map@[id].from_acct,
            id,
            contract_balance,
        ) == Ok::<Balance, Error>(s.paid_message_map@[id].staked_balance),
{
}

/// Reward periodicity across a post: the posting entry points raise the
/// claim counter by exactly one (wrapping), keep the reward
/// configuration and pool, and make no payout themselves — so in a
/// state related to the one before the post that way, with the program
/// on and pool and balance sufficient, a reward of exactly the
/// configured amount is owed precisely when the new counter sits on a
/// multiple of the interval.  (Below the counter's machine limit, where
/// the wrap is a plain increment.)
pub proof fn lemma_reward_follows_every_post(
    before: ContractStorage,
    after: ContractStorage,
    contract_balance: Balance,
)
    requires
        after.claim_counter == before.claim_counter.wrapping_add(1),
        same_reward_config(before, after),
        after.reward_balance == before.reward_balance,
        before.reward_on == 1,
        before.reward_interval != 0,
        before.reward_balance > before.reward_amount,
        contract_balance > before.reward_amount.saturating_add(10),
        before.claim_counter < u128::MAX,
    ensures
        after.claim_counter == before.claim_counter + 1,
        reward_due_now(after, contract_balance) == (if after.claim_counter
            % after.reward_interval == 0 {
            Some(before.reward_amount)
        } else {
            None::<Balance>
        }),
{
}

/// Reward periodicity: while the program is on with interval `n` and the
/// pool and the contract balance suffice, a reward is due exactly when
/// the claim counter sits on a multiple of `n` — and then for exactly
/// the configured amount.  Each successful post raises the counter by
/// one (by the contracts of the posting entry points), so exactly every
/// `n`-th post triggers exactly one payout.
pub proof fn lemma_reward_periodicity(s: ContractStorage, contract_balance: Balance)
    requires
        s.reward_on == 1,
        s.reward_interval != 0,
        s.reward_balance > s.reward_amount,
        contract_balance > s.reward_amount.saturating_add(10),
    ensures
        reward_due_now(s, contract_balance) is Some <==> s.claim_counter % s.reward_interval == 0,
        reward_due_now(s, contract_balance) is Some ==> reward_due_now(s, contract_balance)
            == Some(s.reward_amount),
{
}

} // verus!
