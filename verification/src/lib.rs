//! State-management core of a pay-to-promote social feed.
//!
//! Accounts post free and paid (sponsored) messages; other accounts endorse
//! them, and endorsing a paid message pays the endorser from the poster's
//! stake.  The heart of the crate is the bounded admission and payout engine:
//! fixed-capacity, per-interest-tag collections of paid messages that behave
//! like a continuous reverse auction (lowest bidder evicted when a topic is
//! full), combined with strict balance accounting that never lets a message
//! pay out more than it staked and never pays the same endorser twice.
//!
//! The blockchain host around this core (storage trie, caller identity,
//! block timestamps, the balance-transfer primitive, the event sink, content
//! hashing) is a collaborator, not part of the core.  Host-derived values
//! enter every entry point as plain parameters: the caller's account key,
//! the freshly hashed message id, the current timestamp, the contract's
//! spendable balance.  Payouts follow a transfer-first discipline: a
//! decision function computes the payment owed without mutating anything,
//! the host performs the transfer, and only on success does the host call
//! the commit function that mutates the accounting state.

pub mod auction;
pub mod endorse;
pub mod interest;
pub mod laws;
pub mod ledger;
pub mod posts;
pub mod queries;
pub mod rewards;
pub mod settings;
pub mod social;
pub mod storage;
pub mod tag_map;
pub mod types;

pub use storage::ContractStorage;
pub use types::{
    AccountId, AccountRewardedSocial, Balance, Blocked, Error, Following, MessageBroadcast,
    MessageDetails, MessageElevated, MessageId, Messages, MyFeed, MyPaidFeed, NewBlock, NewFollow,
    NewUnBlock, NewUnFollow, PaidMessageBroadcast, PaidMessageDetails, PaidMessageElevated,
    RewardSettings, Settings, SettingsUpdated, SocialProfile,
};
