//! Scenario tests for the bounded admission and payout engine.

use geode_social::{ContractStorage, Error};

fn b(s: &str) -> Vec<u8> {
    s.as_bytes().to_vec()
}

const DAY: u64 = 86400000;
const BAL: u128 = 1_000_000;

fn set_interests(s: &mut ContractStorage, who: u64, name: &str, interests: &str) {
    s.update_settings(who, b(name), b(interests), 1000, 1000, DAY)
        .expect("settings update");
}

fn paid_endorse(s: &mut ContractStorage, who: u64, id: u64, bal: u128) -> Result<u128, Error> {
    let payout = s.elevate_paid_message(who, id, bal)?;
    s.commit_paid_elevation(who, id, bal);
    Ok(payout)
}

#[test]
fn full_topic_evicts_lowest_bid_and_rejects_low_bids() {
    // Topic capacity 2; bids {5, 8}; a bid of 6 evicts the 5; a bid of 3
    // is rejected and the slot stays {6, 8}.
    let mut s = ContractStorage::new_with_limits(3, 55, 2, 100, 400, 99, 490);
    s.send_paid_message_public(1, b("a"), b(""), b(""), 10, 5, b("sports"), 50, 101, 10)
        .expect("first bid");
    s.send_paid_message_public(1, b("b"), b(""), b(""), 10, 8, b("sports"), 80, 102, 11)
        .expect("second bid");
    s.send_paid_message_public(1, b("c"), b(""), b(""), 10, 6, b("sports"), 60, 103, 12)
        .expect("third bid evicts the lowest");
    set_interests(&mut s, 9, "watcher", "sports and more");
    let feed = s.get_paid_feed(9, b("sports"));
    let bids: Vec<u128> = feed.mypaidfeed.iter().map(|d| d.endorser_payment).collect();
    assert_eq!(bids, vec![8, 6]);
    // The topic loser keeps its store entry and stake.
    let loser = s.get_details_for_paid_message(101);
    assert_eq!(loser.message_id, 101);
    assert_eq!(loser.staked_balance, 50);
    // A bid at or below the floor is rejected with nothing changed.
    let r = s.send_paid_message_public(1, b("d"), b(""), b(""), 10, 3, b("sports"), 30, 104, 13);
    assert_eq!(r, Err(Error::BidTooLow));
    let feed = s.get_paid_feed(9, b("sports"));
    let bids: Vec<u128> = feed.mypaidfeed.iter().map(|d| d.endorser_payment).collect();
    assert_eq!(bids, vec![8, 6]);
    assert_eq!(s.get_details_for_paid_message(104).message_id, 0);
}

#[test]
fn bid_equal_to_floor_is_rejected() {
    let mut s = ContractStorage::new_with_limits(3, 55, 1, 100, 400, 99, 490);
    s.send_paid_message_public(1, b("a"), b(""), b(""), 10, 7, b("news"), 70, 111, 10)
        .expect("first bid");
    let r = s.send_paid_message_public(2, b("b"), b(""), b(""), 10, 7, b("news"), 70, 112, 11);
    assert_eq!(r, Err(Error::BidTooLow));
}

#[test]
fn payout_runs_down_the_stake_and_author_reclaims_the_rest() {
    // total_staked 100, max 10, payment 10: three endorsers leave 70,
    // and the author's self-endorsement reclaims the full remainder.
    let mut s = ContractStorage::new();
    set_interests(&mut s, 1, "author", "music");
    s.send_paid_message_public(1, b("ad"), b(""), b(""), 10, 10, b("music"), 100, 201, DAY + 1)
        .expect("paid post");
    for who in [11u64, 12, 13] {
        set_interests(&mut s, who, "", "music lover");
        assert_eq!(paid_endorse(&mut s, who, 201, BAL), Ok(10));
    }
    let d = s.get_details_for_paid_message(201);
    assert_eq!(d.staked_balance, 70);
    assert_eq!(d.endorser_count, 3);
    assert_eq!(paid_endorse(&mut s, 1, 201, BAL), Ok(70));
    let d = s.get_details_for_paid_message(201);
    assert_eq!(d.staked_balance, 0);
    assert_eq!(d.endorser_count, 4);
}

#[test]
fn self_reclaim_emits_no_event_but_records_the_author() {
    let mut s = ContractStorage::new();
    set_interests(&mut s, 1, "author", "music");
    s.send_paid_message_public(1, b("ad"), b(""), b(""), 10, 10, b("music"), 100, 202, DAY + 1)
        .expect("paid post");
    assert_eq!(s.elevate_paid_message(1, 202, BAL), Ok(100));
    assert!(s.commit_paid_elevation(1, 202, BAL).is_none());
    // A second reclaim is a duplicate endorsement.
    assert_eq!(s.elevate_paid_message(1, 202, BAL), Err(Error::DuplicateEndorsement));
}

#[test]
fn paid_endorsement_errors_in_order() {
    let mut s = ContractStorage::new();
    set_interests(&mut s, 1, "author", "cars");
    s.send_paid_message_public(1, b("ad"), b(""), b(""), 1, 10, b("cars"), 100, 203, DAY + 1)
        .expect("paid post");
    // Nonexistent message.
    assert_eq!(s.elevate_paid_message(7, 999, BAL), Err(Error::NonexistentPaidMessage));
    // No interest match for an account without matching interests.
    assert_eq!(s.elevate_paid_message(7, 203, BAL), Err(Error::NoInterestMatch));
    // With matching interests the endorsement succeeds once...
    set_interests(&mut s, 7, "", "fast cars");
    assert_eq!(paid_endorse(&mut s, 7, 203, BAL), Ok(10));
    // ...twice is a duplicate.
    assert_eq!(s.elevate_paid_message(7, 203, BAL), Err(Error::DuplicateEndorsement));
    // The cap of one paid endorsement is exhausted for everyone else.
    set_interests(&mut s, 8, "", "cars too");
    assert_eq!(
        s.elevate_paid_message(8, 203, BAL),
        Err(Error::NoMorePaidEndorsementsAvailable)
    );
}

#[test]
fn payout_needs_stake_and_contract_balance() {
    let mut s = ContractStorage::new();
    set_interests(&mut s, 1, "author", "art");
    // Payment larger than the stake: the stake cannot cover one payout.
    s.send_paid_message_public(1, b("ad"), b(""), b(""), 10, 200, b("art"), 100, 204, DAY + 1)
        .expect("paid post");
    set_interests(&mut s, 7, "", "art fan");
    assert_eq!(s.elevate_paid_message(7, 204, BAL), Err(Error::ZeroBalance));
    // Contract balance at or below payout + 11 also refuses.
    s.send_paid_message_public(1, b("ad2"), b(""), b(""), 10, 10, b("art"), 100, 205, DAY + 2)
        .expect("paid post");
    assert_eq!(s.elevate_paid_message(7, 205, 21), Err(Error::ZeroBalance));
    assert_eq!(s.elevate_paid_message(7, 205, 22), Ok(10));
}

#[test]
fn empty_target_tag_matches_every_endorser() {
    let mut s = ContractStorage::new();
    s.send_paid_message_public(1, b("ad"), b(""), b(""), 5, 10, b(""), 100, 206, 1)
        .expect("paid post");
    // Account 7 never declared interests; the empty tag still matches.
    assert_eq!(paid_endorse(&mut s, 7, 206, BAL), Ok(10));
}

#[test]
fn endorser_ledger_is_bounded_and_eviction_reopens_payment() {
    // Endorser ledger capacity 2 with 5 endorsements on offer: the third
    // endorser pushes the first out of the recorded list.  Duplicate
    // tracking only reaches as far as the bounded list, so the evicted
    // endorser is payable again — the price of a bounded audit trail.
    let mut s = ContractStorage::new_with_limits(3, 55, 55, 100, 2, 99, 490);
    s.send_paid_message_public(1, b("ad"), b(""), b(""), 5, 10, b(""), 100, 221, 1)
        .expect("paid post");
    assert_eq!(paid_endorse(&mut s, 11, 221, BAL), Ok(10));
    assert_eq!(paid_endorse(&mut s, 12, 221, BAL), Ok(10));
    assert_eq!(s.elevate_paid_message(11, 221, BAL), Err(Error::DuplicateEndorsement));
    assert_eq!(paid_endorse(&mut s, 13, 221, BAL), Ok(10));
    let d = s.get_details_for_paid_message(221);
    assert_eq!(d.endorsers, vec![12, 13]);
    assert_eq!(d.endorser_count, 3);
    assert_eq!(s.elevate_paid_message(11, 221, BAL), Ok(10));
}

#[test]
fn fourth_message_evicts_the_first_with_its_replies() {
    // Account ledger capacity 3: the fourth message evicts the first and
    // every reply that hung off it.
    let mut s = ContractStorage::new();
    s.send_message_public(1, b("one"), b(""), b(""), 301, 1).expect("post");
    s.send_message_public(1, b("two"), b(""), b(""), 302, 2).expect("post");
    s.send_reply_public(2, b("re one"), b(""), b(""), 301, 401, 3).expect("reply");
    s.send_reply_public(3, b("re one again"), b(""), b(""), 301, 402, 4).expect("reply");
    s.send_message_public(1, b("three"), b(""), b(""), 303, 5).expect("post");
    assert_eq!(s.get_messages_sent_by_account(1), vec![301, 302, 303]);
    assert_eq!(s.get_replies_for_message(301).len(), 2);
    s.send_message_public(1, b("four"), b(""), b(""), 304, 6).expect("post");
    assert_eq!(s.get_messages_sent_by_account(1), vec![302, 303, 304]);
    // The evicted message and its replies are gone from storage.
    assert_eq!(s.get_details_for_message(301).message_id, 0);
    assert_eq!(s.get_replies_for_message(301).len(), 0);
    assert_eq!(s.get_details_for_message(302).message_id, 302);
}

#[test]
fn author_quota_eviction_also_leaves_the_old_topic() {
    // Paid ledger capacity 1: a second paid post evicts the author's
    // first one from the store and from its own topic slot.
    let mut s = ContractStorage::new_with_limits(3, 1, 55, 100, 400, 99, 490);
    s.send_paid_message_public(1, b("a"), b(""), b(""), 10, 5, b("old"), 50, 211, 1)
        .expect("paid post");
    s.send_paid_message_public(1, b("b"), b(""), b(""), 10, 6, b("new"), 60, 212, 2)
        .expect("paid post");
    assert_eq!(s.get_details_for_paid_message(211).message_id, 0);
    let mine = s.get_account_paid_messages(1);
    assert_eq!(mine.len(), 1);
    assert_eq!(mine[0].message_id, 212);
    set_interests(&mut s, 9, "watcher", "old new");
    assert_eq!(s.get_paid_feed(9, b("old")).mypaidfeed.len(), 0);
    assert_eq!(s.get_paid_feed(9, b("new")).mypaidfeed.len(), 1);
}

#[test]
fn oversized_inputs_are_rejected_before_anything_changes() {
    let mut s = ContractStorage::new();
    let long = vec![b'x'; 601];
    assert_eq!(
        s.send_message_public(1, long.clone(), b(""), b(""), 310, 1),
        Err(Error::DataTooLarge)
    );
    assert_eq!(
        s.send_message_public(1, b("ok"), long.clone(), b(""), 310, 1),
        Err(Error::DataTooLarge)
    );
    let long_tag = vec![b't'; 101];
    assert_eq!(
        s.send_paid_message_public(1, b("ok"), b(""), b(""), 1, 1, long_tag, 10, 311, 1),
        Err(Error::DataTooLarge)
    );
    assert_eq!(
        s.send_paid_message_public(1, long.clone(), b(""), b(""), 1, 1, b("t"), 10, 311, 1),
        Err(Error::DataTooLarge)
    );
    assert_eq!(
        s.send_reply_public(1, long, b(""), b(""), 310, 312, 1),
        Err(Error::DataTooLarge)
    );
    assert_eq!(s.get_messages_sent_by_account(1), Vec::<u64>::new());
}

#[test]
fn replies_need_an_existing_parent_and_stay_bounded() {
    let mut s = ContractStorage::new_with_limits(3, 55, 55, 2, 400, 99, 490);
    assert_eq!(
        s.send_reply_public(2, b("re"), b(""), b(""), 999, 411, 1),
        Err(Error::ReplyingToMessageDoesNotExist)
    );
    s.send_message_public(1, b("post"), b(""), b(""), 320, 1).expect("post");
    s.send_reply_public(2, b("r1"), b(""), b(""), 320, 421, 2).expect("reply");
    s.send_reply_public(3, b("r2"), b(""), b(""), 320, 422, 3).expect("reply");
    s.send_reply_public(4, b("r3"), b(""), b(""), 320, 423, 4).expect("reply");
    let replies = s.get_replies_for_message(320);
    let ids: Vec<u64> = replies.iter().map(|d| d.message_id).collect();
    assert_eq!(ids, vec![422, 423]);
    assert_eq!(s.get_details_for_message(320).reply_count, 3);
}
