//! Data model of the feed core: keys, entities, events and errors.
//!
//! Account and message keys are opaque fixed-size handles assigned by the
//! host (the host derives message ids from a content digest; the core only
//! relies on their freshness).  Byte vectors carry message content, link
//! fields, usernames and interest tags.

use vstd::prelude::*;

verus! {

/// Opaque account key, assigned by the host and compared only for equality.
pub type AccountId = u64;

/// Opaque message key, derived by the host from a content digest.
/// Distinct messages always receive distinct keys.
pub type MessageId = u64;

/// Coin amount.
pub type Balance = u128;

/// Sentinel message key: marks a message as top-level (not a reply).
/// Host-assigned keys of real messages are never this value.
pub const NO_MESSAGE: MessageId = 0;

/// Byte limit on message content and on each link field.
pub const MAX_CONTENT_LEN: usize = 600;

/// Byte limit on the interest tag targeted by a paid message.
pub const MAX_TARGET_LEN: usize = 100;

/// Byte limit on a username and on an account's interest list.
pub const MAX_SETTINGS_LEN: usize = 180;

/// Cool-down between two settings updates by one account, in milliseconds.
pub const SETTINGS_COOLDOWN_MS: u64 = 86400000;

/// Per-account settings.
#[derive(Debug)]
pub struct Settings {
    pub username: Vec<u8>,
    pub interests: Vec<u8>,
    pub max_feed: u128,
    pub max_paid_feed: u128,
    pub last_update: u64,
}

impl Default for Settings {
    /// Fresh settings: empty username and interests, feed sizes of 1000.
    fn default() -> (s: Settings)
        ensures
            s.username@ == Seq::<u8>::empty(),
            s.interests@ == Seq::<u8>::empty(),
            s.max_feed == 1000,
            s.max_paid_feed == 1000,
            s.last_update == 0,
    {
        Settings {
            username: Vec::new(),
            interests: Vec::new(),
            max_feed: 1000,
            max_paid_feed: 1000,
            last_update: 0,
        }
    }
}

/// Accounts a user follows, oldest first.
#[derive(Debug)]
pub struct Following {
    pub following: Vec<AccountId>,
}

impl Default for Following {
    fn default() -> (f: Following)
        ensures
            f.following@ == Seq::<AccountId>::empty(),
    {
        Following { following: Vec::new() }
    }
}

/// Accounts a user blocks, oldest first.
#[derive(Debug)]
pub struct Blocked {
    pub blocked: Vec<AccountId>,
}

impl Default for Blocked {
    fn default() -> (b: Blocked)
        ensures
            b.blocked@ == Seq::<AccountId>::empty(),
    {
        Blocked { blocked: Vec::new() }
    }
}

/// An ordered list of message keys, oldest first.
#[derive(Debug)]
pub struct Messages {
    pub messages: Vec<MessageId>,
}

impl Default for Messages {
    fn default() -> (m: Messages)
        ensures
            m.messages@ == Seq::<MessageId>::empty(),
    {
        Messages { messages: Vec::new() }
    }
}

/// Stored details of a paid (sponsored) message.
#[derive(Debug)]
pub struct PaidMessageDetails {
    pub message_id: MessageId,
    pub from_acct: AccountId,
    pub username: Vec<u8>,
    pub message: Vec<u8>,
    pub link: Vec<u8>,
    pub link2: Vec<u8>,
    pub endorser_count: u128,
    pub timestamp: u64,
    pub paid_endorser_max: u128,
    pub endorser_payment: Balance,
    pub target_interests: Vec<u8>,
    pub total_staked: Balance,
    pub endorsers: Vec<AccountId>,
    pub staked_balance: Balance,
}

impl Default for PaidMessageDetails {
    fn default() -> (d: PaidMessageDetails)
        ensures
            d.message_id == NO_MESSAGE,
            d.from_acct == 0,
            d.username@ == Seq::<u8>::empty(),
            d.message@ == Seq::<u8>::empty(),
            d.link@ == Seq::<u8>::empty(),
            d.link2@ == Seq::<u8>::empty(),
            d.endorser_count == 0,
            d.timestamp == 0,
            d.paid_endorser_max == 0,
            d.endorser_payment == 0,
            d.target_interests@ == Seq::<u8>::empty(),
            d.total_staked == 0,
            d.endorsers@ == Seq::<AccountId>::empty(),
            d.staked_balance == 0,
    {
        PaidMessageDetails {
            message_id: NO_MESSAGE,
            from_acct: 0,
            username: Vec::new(),
            message: Vec::new(),
            link: Vec::new(),
            link2: Vec::new(),
            endorser_count: 0,
            timestamp: 0,
            paid_endorser_max: 0,
            endorser_payment: 0,
            target_interests: Vec::new(),
            total_staked: 0,
            endorsers: Vec::new(),
            staked_balance: 0,
        }
    }
}

/// Stored details of a free message or of a reply.
#[derive(Debug)]
pub struct MessageDetails {
    pub message_id: MessageId,
    pub reply_to: MessageId,
    pub from_acct: AccountId,
    pub username: Vec<u8>,
    pub message: Vec<u8>,
    pub link: Vec<u8>,
    pub link2: Vec<u8>,
    pub endorser_count: u128,
    pub reply_count: u128,
    pub timestamp: u64,
}

impl Default for MessageDetails {
    fn default() -> (d: MessageDetails)
        ensures
            d.message_id == NO_MESSAGE,
            d.reply_to == NO_MESSAGE,
            d.from_acct == 0,
            d.username@ == Seq::<u8>::empty(),
            d.message@ == Seq::<u8>::empty(),
            d.link@ == Seq::<u8>::empty(),
            d.link2@ == Seq::<u8>::empty(),
            d.endorser_count == 0,
            d.reply_count == 0,
            d.timestamp == 0,
    {
        MessageDetails {
            message_id: NO_MESSAGE,
            reply_to: NO_MESSAGE,
            from_acct: 0,
            username: Vec::new(),
            message: Vec::new(),
            link: Vec::new(),
            link2: Vec::new(),
            endorser_count: 0,
            reply_count: 0,
            timestamp: 0,
        }
    }
}

/// Feed of free messages returned to a caller.
#[derive(Debug)]
pub struct MyFeed {
    pub maxfeed: u128,
    pub blocked: Vec<AccountId>,
    pub myfeed: Vec<MessageDetails>,
}

impl Default for MyFeed {
    fn default() -> (f: MyFeed)
        ensures
            f.maxfeed == 1000,
            f.blocked@ == Seq::<AccountId>::empty(),
            f.myfeed@ == Seq::<MessageDetails>::empty(),
    {
        MyFeed { maxfeed: 1000, blocked: Vec::new(), myfeed: Vec::new() }
    }
}

/// Feed of paid messages matching a caller's interests.
#[derive(Debug)]
pub struct MyPaidFeed {
    pub maxfeed: u128,
    pub myinterests: Vec<u8>,
    pub blocked: Vec<AccountId>,
    pub mypaidfeed: Vec<PaidMessageDetails>,
}

impl Default for MyPaidFeed {
    fn default() -> (f: MyPaidFeed)
        ensures
            f.maxfeed == 1000,
            f.myinterests@ == Seq::<u8>::empty(),
            f.blocked@ == Seq::<AccountId>::empty(),
            f.mypaidfeed@ == Seq::<PaidMessageDetails>::empty(),
    {
        MyPaidFeed {
            maxfeed: 1000,
            myinterests: Vec::new(),
            blocked: Vec::new(),
            mypaidfeed: Vec::new(),
        }
    }
}

/// Full profile of an account: followers, following, sent messages.
#[derive(Debug)]
pub struct SocialProfile {
    pub searched_account: AccountId,
    pub username: Vec<u8>,
    pub followers: u128,
    pub following: Vec<AccountId>,
    pub message_list: Vec<MessageDetails>,
}

impl Default for SocialProfile {
    fn default() -> (p: SocialProfile)
        ensures
            p.searched_account == 0,
            p.username@ == Seq::<u8>::empty(),
            p.followers == 0,
            p.following@ == Seq::<AccountId>::empty(),
            p.message_list@ == Seq::<MessageDetails>::empty(),
    {
        SocialProfile {
            searched_account: 0,
            username: Vec::new(),
            followers: 0,
            following: Vec::new(),
            message_list: Vec::new(),
        }
    }
}

/// Reward-program configuration and bookkeeping.
#[derive(Clone, Copy, Debug, PartialEq, Eq, Structural)]
pub struct RewardSettings {
    pub reward_on: u8,
    pub reward_root_set: u8,
    pub reward_root: AccountId,
    pub reward_interval: u128,
    pub reward_amount: Balance,
    pub reward_balance: Balance,
    pub reward_payouts: Balance,
    pub claim_counter: u128,
}

impl Default for RewardSettings {
    fn default() -> (r: RewardSettings)
        ensures
            r == (RewardSettings {
                reward_on: 0,
                reward_root_set: 0,
                reward_root: 0,
                reward_interval: 0,
                reward_amount: 0,
                reward_balance: 0,
                reward_payouts: 0,
                claim_counter: 0,
            }),
    {
        RewardSettings {
            reward_on: 0,
            reward_root_set: 0,
            reward_root: 0,
            reward_interval: 0,
            reward_amount: 0,
            reward_balance: 0,
            reward_payouts: 0,
            claim_counter: 0,
        }
    }
}

/// Record of a new free broadcast message, for the host's event sink.
#[derive(Debug)]
pub struct MessageBroadcast {
    pub from: AccountId,
    pub message: Vec<u8>,
    pub message_id: MessageId,
    pub link: Vec<u8>,
    pub link2: Vec<u8>,
    pub reply_to: MessageId,
    pub timestamp: u64,
}

/// Record of a new paid broadcast message, for the host's event sink.
#[derive(Debug)]
pub struct PaidMessageBroadcast {
    pub from: AccountId,
    pub message: Vec<u8>,
    pub message_id: MessageId,
    pub link: Vec<u8>,
    pub link2: Vec<u8>,
    pub timestamp: u64,
    pub paid_endorser_max: u128,
    pub endorser_payment: Balance,
    pub target_interests: Vec<u8>,
    pub total_staked: Balance,
}

/// Record of an endorsement of a free message.
#[derive(Clone, Copy, Debug, PartialEq, Eq, Structural)]
pub struct MessageElevated {
    pub from: AccountId,
    pub message_id: MessageId,
    pub endorser: AccountId,
}

/// Record of a paid endorsement.
#[derive(Clone, Copy, Debug, PartialEq, Eq, Structural)]
pub struct PaidMessageElevated {
    pub from: AccountId,
    pub message_id: MessageId,
    pub endorser: AccountId,
}

/// Record of a new follow.
#[derive(Clone, Copy, Debug, PartialEq, Eq, Structural)]
pub struct NewFollow {
    pub from: AccountId,
    pub is_following: AccountId,
}

/// Record of an unfollow.
#[derive(Clone, Copy, Debug, PartialEq, Eq, Structural)]
pub struct NewUnFollow {
    pub from: AccountId,
    pub stopped_following: AccountId,
}

/// Record of a new block.
#[derive(Clone, Copy, Debug, PartialEq, Eq, Structural)]
pub struct NewBlock {
    pub from: AccountId,
    pub blocked: AccountId,
}

/// Record of an unblock.
#[derive(Clone, Copy, Debug, PartialEq, Eq, Structural)]
pub struct NewUnBlock {
    pub from: AccountId,
    pub unblocked: AccountId,
}

/// Record of a settings update, for the host's event sink.
#[derive(Debug)]
pub struct SettingsUpdated {
    pub from: AccountId,
    pub username: Vec<u8>,
    pub interests: Vec<u8>,
}

/// Record of a reward payout to a poster.
#[derive(Clone, Copy, Debug, PartialEq, Eq, Structural)]
pub struct AccountRewardedSocial {
    pub claimant: AccountId,
    pub reward: Balance,
}

/// Every failure an entry point can report.  An entry point that fails
/// leaves the whole state exactly as it was.
#[derive(Clone, Copy, Debug, PartialEq, Eq, Structural)]
pub enum Error {
    /// Following an account that is already followed, or oneself.
    CannotFollow,
    /// Unfollowing an account that is not followed.
    NotFollowing,
    NotInFollowerList,
    /// Blocking an account that is already blocked, or oneself.
    CannotBlock,
    /// Unblocking an account that was never blocked.
    NotBlocked,
    /// Endorsing a free message that does not exist.
    NonexistentMessage,
    /// Endorsing a paid message that does not exist.
    NonexistentPaidMessage,
    /// Endorsing the same message twice, or one's own free message.
    DuplicateEndorsement,
    /// Updating settings before the cool-down has elapsed.
    CannotUpdateInterestsWithin24Hours,
    InterestsTooLong,
    /// Endorsing a paid message outside the caller's interests.
    NoInterestMatch,
    /// The paid message has no paid endorsements left.
    NoMorePaidEndorsementsAvailable,
    /// The contract cannot cover the payout and its reserve floor.
    ZeroBalance,
    /// The host reported that the endorser transfer failed.
    EndorserPayoutFailed,
    /// The requested username belongs to another account.
    UsernameTaken,
    /// Replying to a message that does not exist.
    ReplyingToMessageDoesNotExist,
    /// An input field is over its byte limit.
    DataTooLarge,
    /// A paid message's bid is too low for a full topic.
    BidTooLow,
    RepliesFull,
    /// The caller is not the reward root.
    PermissionDenied,
    /// The host reported that the reward transfer failed.
    PayoutFailed,
}

/// The two free-message records carry the same data.
pub open spec fn md_like(a: MessageDetails, b: MessageDetails) -> bool {
    &&& a.message_id == b.message_id
    &&& a.reply_to == b.reply_to
    &&& a.from_acct == b.from_acct
    &&& a.username@ == b.username@
    &&& a.message@ == b.message@
    &&& a.link@ == b.link@
    &&& a.link2@ == b.link2@
    &&& a.endorser_count == b.endorser_count
    &&& a.reply_count == b.reply_count
    &&& a.timestamp == b.timestamp
}

/// The free-message record carries only default values.
pub open spec fn md_is_default(d: MessageDetails) -> bool {
    &&& d.message_id == NO_MESSAGE
    &&& d.reply_to == NO_MESSAGE
    &&& d.from_acct == 0
    &&& d.username@ == Seq::<u8>::empty()
    &&& d.message@ == Seq::<u8>::empty()
    &&& d.link@ == Seq::<u8>::empty()
    &&& d.link2@ == Seq::<u8>::empty()
    &&& d.endorser_count == 0
    &&& d.reply_count == 0
    &&& d.timestamp == 0
}

/// The two paid-message records carry the same data.
pub open spec fn pmd_like(a: PaidMessageDetails, b: PaidMessageDetails) -> bool {
    &&& a.message_id == b.message_id
    &&& a.from_acct == b.from_acct
    &&& a.username@ == b.username@
    &&& a.message@ == b.message@
    &&& a.link@ == b.link@
    &&& a.link2@ == b.link2@
    &&& a.endorser_count == b.endorser_count
    &&& a.timestamp == b.timestamp
    &&& a.paid_endorser_max == b.paid_endorser_max
    &&& a.endorser_payment == b.endorser_payment
    &&& a.target_interests@ == b.target_interests@
    &&& a.total_staked == b.total_staked
    &&& a.endorsers@ == b.endorsers@
    &&& a.staked_balance == b.staked_balance
}

/// The paid-message record carries only default values.
pub open spec fn pmd_is_default(d: PaidMessageDetails) -> bool {
    &&& d.message_id == NO_MESSAGE
    &&& d.from_acct == 0
    &&& d.username@ == Seq::<u8>::empty()
    &&& d.message@ == Seq::<u8>::empty()
    &&& d.link@ == Seq::<u8>::empty()
    &&& d.link2@ == Seq::<u8>::empty()
    &&& d.endorser_count == 0
    &&& d.timestamp == 0
    &&& d.paid_endorser_max == 0
    &&& d.endorser_payment == 0
    &&& d.target_interests@ == Seq::<u8>::empty()
    &&& d.total_staked == 0
    &&& d.endorsers@ == Seq::<AccountId>::empty()
    &&& d.staked_balance == 0
}

/// Copy of a free-message record with the same data.
pub fn copy_message_details(d: &MessageDetails) -> (r: MessageDetails)
    ensures
        md_like(r, *d),
{
    MessageDetails {
        message_id: d.message_id,
        reply_to: d.reply_to,
        from_acct: d.from_acct,
        username: clone_bytes(&d.username),
        message: clone_bytes(&d.message),
        link: clone_bytes(&d.link),
        link2: clone_bytes(&d.link2),
        endorser_count: d.endorser_count,
        reply_count: d.reply_count,
        timestamp: d.timestamp,
    }
}

/// Copy of a paid-message record with the same data.
pub fn copy_paid_details(d: &PaidMessageDetails) -> (r: PaidMessageDetails)
    ensures
        pmd_like(r, *d),
{
    PaidMessageDetails {
        message_id: d.message_id,
        from_acct: d.from_acct,
        username: clone_bytes(&d.username),
        message: clone_bytes(&d.message),
        link: clone_bytes(&d.link),
        link2: clone_bytes(&d.link2),
        endorser_count: d.endorser_count,
        timestamp: d.timestamp,
        paid_endorser_max: d.paid_endorser_max,
        endorser_payment: d.endorser_payment,
        target_interests: clone_bytes(&d.target_interests),
        total_staked: d.total_staked,
        endorsers: clone_keys(&d.endorsers),
        staked_balance: d.staked_balance,
    }
}

/// Copy of a byte vector with the same contents.
pub fn clone_bytes(v: &Vec<u8>) -> (r: Vec<u8>)
    ensures
        r@ == v@,
{
    let r = v.clone();
    proof {
        assert(r@ =~= v@);
    }
    r
}

/// Copy of a key vector with the same contents.
pub fn clone_keys(v: &Vec<u64>) -> (r: Vec<u64>)
    ensures
        r@ == v@,
{
    let r = v.clone();
    proof {
        assert(r@ =~= v@);
    }
    r
}

/// Whether two byte vectors hold the same bytes.
pub fn bytes_eq(a: &Vec<u8>, b: &Vec<u8>) -> (r: bool)
    ensures
        r == (a@ == b@),
{
    if a.len() != b.len() {
        return false;
    }
    let mut i: usize = 0;
    while i < a.len()
        invariant
            a@.len() == b@.len(),
            i <= a@.len(),
            forall|j: int| 0 <= j < i ==> a@[j] == b@[j],
        decreases a@.len() - i,
    {
        if a[i] != b[i] {
            return false;
        }
        i = i + 1;
    }
    proof {
        assert(a@ =~= b@);
    }
    true
}

} // verus!
