//! Tests for follows, blocks, settings, free endorsements and the
//! read-only projections.

use geode_social::{ContractStorage, Error, MessageElevated, NewFollow};

fn b(s: &str) -> Vec<u8> {
    s.as_bytes().to_vec()
}

const DAY: u64 = 86400000;

#[test]
fn follow_unfollow_and_their_errors() {
    let mut s = ContractStorage::new();
    assert_eq!(s.follow_account(1, 1), Err(Error::CannotFollow));
    assert_eq!(
        s.follow_account(1, 2),
        Ok(NewFollow { from: 1, is_following: 2 })
    );
    assert_eq!(s.follow_account(1, 2), Err(Error::CannotFollow));
    assert_eq!(s.get_account_following(1), vec![2]);
    assert_eq!(s.get_account_profile(2).followers, 1);
    assert_eq!(s.unfollow_account(1, 3), Err(Error::NotFollowing));
    let ev = s.unfollow_account(1, 2).expect("unfollow");
    assert_eq!(ev.stopped_following, 2);
    assert_eq!(s.get_account_following(1), Vec::<u64>::new());
    assert_eq!(s.get_account_profile(2).followers, 0);
}

#[test]
fn full_follow_ledger_drops_the_oldest_follow() {
    let mut s = ContractStorage::new_with_limits(3, 55, 55, 100, 400, 2, 490);
    s.follow_account(1, 10).expect("follow");
    s.follow_account(1, 11).expect("follow");
    s.follow_account(1, 12).expect("follow");
    assert_eq!(s.get_account_following(1), vec![11, 12]);
}

#[test]
fn block_unblock_and_their_errors() {
    let mut s = ContractStorage::new();
    assert_eq!(s.block_account(1, 1), Err(Error::CannotBlock));
    let ev = s.block_account(1, 2).expect("block");
    assert_eq!(ev.blocked, 2);
    assert_eq!(s.block_account(1, 2), Err(Error::CannotBlock));
    assert_eq!(s.get_public_feed(1).blocked, vec![2]);
    assert_eq!(s.unblock_account(1, 3), Err(Error::NotBlocked));
    let ev = s.unblock_account(1, 2).expect("unblock");
    assert_eq!(ev.unblocked, 2);
    assert_eq!(s.get_public_feed(1).blocked, Vec::<u64>::new());
}

#[test]
fn settings_cooldown_size_limits_and_username_claims() {
    let mut s = ContractStorage::new();
    // Inside the first 24 hours of host time nothing can be set.
    assert_eq!(
        s.update_settings(1, b("alice"), b(""), 9, 9, DAY - 1).unwrap_err(),
        Error::CannotUpdateInterestsWithin24Hours
    );
    assert_eq!(
        s.update_settings(1, vec![b'u'; 181], b(""), 9, 9, DAY).unwrap_err(),
        Error::DataTooLarge
    );
    let ev = s.update_settings(1, b("alice"), b("tea"), 9, 9, DAY).expect("settings");
    assert_eq!(ev.username, b("alice"));
    assert_eq!(s.verify_account(1), 1);
    assert_eq!(s.verify_account(2), 0);
    // A second update inside the cool-down fails.
    assert_eq!(
        s.update_settings(1, b("alice2"), b(""), 9, 9, DAY + 5).unwrap_err(),
        Error::CannotUpdateInterestsWithin24Hours
    );
    // Another account cannot take a claimed name.
    assert_eq!(
        s.update_settings(2, b("alice"), b(""), 9, 9, DAY).unwrap_err(),
        Error::UsernameTaken
    );
    // Renaming releases the old name for others.
    s.update_settings(1, b("wonder"), b("tea"), 9, 9, 2 * DAY).expect("rename");
    s.update_settings(2, b("alice"), b(""), 9, 9, 2 * DAY).expect("claim released name");
    assert_eq!(s.get_account_profile(2).username, b("alice"));
    assert_eq!(s.get_account_profile(1).username, b("wonder"));
}

#[test]
fn free_endorsement_counts_and_errors() {
    let mut s = ContractStorage::new();
    assert_eq!(s.elevate_message(2, 77), Err(Error::NonexistentMessage));
    s.send_message_public(1, b("hello"), b(""), b(""), 501, 1).expect("post");
    assert_eq!(s.elevate_message(1, 501), Err(Error::DuplicateEndorsement));
    assert_eq!(
        s.elevate_message(2, 501),
        Ok(MessageElevated { from: 1, message_id: 501, endorser: 2 })
    );
    assert_eq!(s.get_details_for_message(501).endorser_count, 1);
    // Endorsing again only bumps the counter further (the free path
    // keeps no endorser list).
    s.elevate_message(2, 501).expect("endorse again");
    assert_eq!(s.get_details_for_message(501).endorser_count, 2);
}

#[test]
fn feed_shows_own_posts_and_followed_accounts() {
    let mut s = ContractStorage::new();
    s.send_message_public(1, b("mine"), b(""), b(""), 601, 1).expect("post");
    s.send_message_public(2, b("theirs"), b(""), b(""), 602, 2).expect("post");
    s.send_message_public(2, b("more"), b(""), b(""), 603, 3).expect("post");
    s.elevate_message(2, 601).expect("endorse");
    s.follow_account(1, 2).expect("follow");
    let feed = s.get_public_feed(1);
    let ids: Vec<u64> = feed.myfeed.iter().map(|d| d.message_id).collect();
    // Own post, account 2's posts, and account 2's latest endorsement.
    assert_eq!(ids, vec![601, 602, 603, 601]);
    assert_eq!(feed.maxfeed, 1000);
}

#[test]
fn profile_interleaves_messages_and_replies() {
    let mut s = ContractStorage::new();
    s.send_message_public(1, b("m1"), b(""), b(""), 701, 1).expect("post");
    s.send_message_public(1, b("m2"), b(""), b(""), 702, 2).expect("post");
    s.send_reply_public(2, b("re m1"), b(""), b(""), 701, 711, 3).expect("reply");
    let p = s.get_account_profile(1);
    assert_eq!(p.searched_account, 1);
    let ids: Vec<u64> = p.message_list.iter().map(|d| d.message_id).collect();
    // m1, its reply, m2, and the (absent) latest endorsement as defaults.
    assert_eq!(ids, vec![701, 711, 702, 0]);
    let texts: Vec<Vec<u8>> = p.message_list.iter().map(|d| d.message.clone()).collect();
    assert_eq!(texts[1], b("re m1"));
}

#[test]
fn paid_feed_filters_by_interest_and_eligibility() {
    let mut s = ContractStorage::new();
    s.update_settings(9, b("w"), b("sports fan"), 9, 9, DAY).expect("settings");
    s.send_paid_message_public(1, b("open"), b(""), b(""), 2, 10, b("sports"), 100, 801, 1)
        .expect("paid post");
    s.send_paid_message_public(1, b("spent"), b(""), b(""), 1, 30, b("sports"), 30, 802, 2)
        .expect("paid post");
    // Run message 802 out of endorsements and stake.
    s.update_settings(7, b("e"), b("sports too"), 9, 9, DAY).expect("settings");
    s.elevate_paid_message(7, 802, 1_000_000).expect("decision");
    s.commit_paid_elevation(7, 802, 1_000_000);
    // Only the open message shows, and only to a caller whose interests
    // embed the keyword.
    let feed = s.get_paid_feed(9, b("sports"));
    let ids: Vec<u64> = feed.mypaidfeed.iter().map(|d| d.message_id).collect();
    assert_eq!(ids, vec![801]);
    assert_eq!(feed.myinterests, b("sports fan"));
    let other = s.get_paid_feed(9, b("music"));
    let ids: Vec<u64> = other.mypaidfeed.iter().map(|d| d.message_id).collect();
    assert_eq!(ids, Vec::<u64>::new());
}

#[test]
fn message_getters_fall_back_to_defaults() {
    let s = ContractStorage::new();
    let d = s.get_details_for_message(5);
    assert_eq!(d.message_id, 0);
    assert_eq!(d.message, Vec::<u8>::new());
    let p = s.get_details_for_paid_message(5);
    assert_eq!(p.message_id, 0);
    assert_eq!(p.staked_balance, 0);
    assert_eq!(s.get_account_paid_messages(5).len(), 0);
    assert_eq!(s.get_replies_for_message(5).len(), 0);
}
