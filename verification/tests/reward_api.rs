//! Tests for the reward program: root administration and the every-Nth
//! payout trigger.

use geode_social::{ContractStorage, Error, RewardSettings};

fn b(s: &str) -> Vec<u8> {
    s.as_bytes().to_vec()
}

const BAL: u128 = 1_000_000;

#[test]
fn root_is_claimed_once_and_guards_administration() {
    let mut s = ContractStorage::new();
    s.set_reward_root(5, 5).expect("first claim");
    // A stranger cannot move the root; the root can.
    assert_eq!(s.set_reward_root(6, 6), Err(Error::PermissionDenied));
    s.set_reward_root(5, 7).expect("root hands over");
    assert_eq!(s.set_reward(5, 1, 10, 50), Err(Error::PermissionDenied));
    s.set_reward(7, 1, 10, 50).expect("new root configures");
    assert_eq!(s.add_reward_balance(5, 100), Err(Error::PermissionDenied));
    s.add_reward_balance(7, 100).expect("fund the pool");
    let view = s.get_reward_settings(7);
    assert_eq!(view.reward_on, 1);
    assert_eq!(view.reward_interval, 10);
    assert_eq!(view.reward_amount, 50);
    assert_eq!(view.reward_balance, 100);
    // Anyone else sees only defaults.
    assert_eq!(s.get_reward_settings(5), RewardSettings::default());
}

#[test]
fn every_second_post_pays_one_reward() {
    let mut s = ContractStorage::new();
    s.set_reward_root(5, 5).expect("claim root");
    s.set_reward(5, 1, 2, 50).expect("interval 2, amount 50");
    s.add_reward_balance(5, 1000).expect("fund");
    s.send_message_public(1, b("p1"), b(""), b(""), 901, 1).expect("post");
    assert_eq!(s.reward_due(BAL), None);
    s.send_message_public(1, b("p2"), b(""), b(""), 902, 2).expect("post");
    assert_eq!(s.reward_due(BAL), Some(50));
    let ev = s.commit_reward(1, BAL);
    assert_eq!(ev.claimant, 1);
    assert_eq!(ev.reward, 50);
    assert_eq!(s.get_reward_settings(5).reward_balance, 950);
    assert_eq!(s.get_reward_settings(5).reward_payouts, 50);
    s.send_message_public(1, b("p3"), b(""), b(""), 903, 3).expect("post");
    assert_eq!(s.reward_due(BAL), None);
    // Paid posts raise the same claim counter.
    s.send_paid_message_public(1, b("p4"), b(""), b(""), 1, 1, b("t"), 10, 904, 4)
        .expect("paid post");
    assert_eq!(s.reward_due(BAL), Some(50));
}

#[test]
fn reward_needs_pool_balance_and_contract_floor() {
    let mut s = ContractStorage::new();
    s.set_reward_root(5, 5).expect("claim root");
    s.set_reward(5, 1, 1, 50).expect("every post");
    // Pool empty: nothing due even on the interval.
    s.send_message_public(1, b("p"), b(""), b(""), 905, 1).expect("post");
    assert_eq!(s.reward_due(BAL), None);
    // Pool at exactly the amount is not enough; one more is.
    s.add_reward_balance(5, 50).expect("fund");
    assert_eq!(s.reward_due(BAL), None);
    s.add_reward_balance(5, 1).expect("fund");
    assert_eq!(s.reward_due(BAL), Some(50));
    // The contract balance must clear the amount plus the floor of 10.
    assert_eq!(s.reward_due(60), None);
    assert_eq!(s.reward_due(61), Some(50));
    // Switched off, nothing is due.
    s.set_reward(5, 0, 1, 50).expect("off");
    assert_eq!(s.reward_due(BAL), None);
}

#[test]
fn zero_interval_never_pays() {
    let mut s = ContractStorage::new();
    s.set_reward_root(5, 5).expect("claim root");
    s.set_reward(5, 1, 0, 50).expect("interval zero");
    s.add_reward_balance(5, 1000).expect("fund");
    s.send_message_public(1, b("p"), b(""), b(""), 906, 1).expect("post");
    assert_eq!(s.reward_due(BAL), None);
}

#[test]
fn shutdown_refunds_the_pool_minus_the_floor() {
    let mut s = ContractStorage::new();
    s.set_reward_root(5, 5).expect("claim root");
    assert_eq!(s.shut_down_reward(6, BAL), Err(Error::PermissionDenied));
    // An empty pool cannot refund.
    assert_eq!(s.shut_down_reward(5, BAL), Err(Error::ZeroBalance));
    s.set_reward(5, 1, 2, 50).expect("on");
    s.add_reward_balance(5, 100).expect("fund");
    // A drained contract cannot refund either.
    assert_eq!(s.shut_down_reward(5, 10), Err(Error::ZeroBalance));
    assert_eq!(s.shut_down_reward(5, BAL), Ok(90));
    s.commit_shut_down_reward(5, BAL);
    assert_eq!(s.get_reward_settings(5).reward_on, 0);
}
