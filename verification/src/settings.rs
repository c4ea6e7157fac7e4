//! Per-account settings and the username reverse index.
//!
//! A settings update is time-gated by a 24-hour cool-down on the host
//! clock.  Usernames are globally unique: the reverse index maps each
//! claimed name to its single owner, and changing names releases the old
//! mapping in the same step that claims the new one.

use vstd::prelude::*;

use crate::storage::{
    interests_of, last_update_of, map_updated_at, same_caps, same_message_system, same_paid_system,
    same_reward_state, same_social, username_of, ContractStorage,
};
use crate::types::{
    bytes_eq, clone_bytes, AccountId, Error, Settings, SettingsUpdated, MAX_SETTINGS_LEN,
    SETTINGS_COOLDOWN_MS,
};

verus! {

impl ContractStorage {
    /// Replaces the caller's settings.  Fails inside the cool-down window,
    /// on over-long inputs, and when the requested username is already
    /// claimed; otherwise the settings are stored, and on a name change
    /// the reverse index atomically releases the old name and claims the
    /// new one for the caller.
    pub fn update_settings(
        &mut self,
        caller: AccountId,
        my_username: Vec<u8>,
        my_interests: Vec<u8>,
        max_messages_in_my_feed: u128,
        max_messages_in_my_paid_feed: u128,
        now: u64,
    ) -> (r: Result<SettingsUpdated, Error>)
        requires
            old(self).wf(),
        ensures
            final(self).wf(),
            match r {
                Ok(ev) => {
                    &&& now.saturating_sub(last_update_of(old(self).account_settings_map@, caller))
                        >= SETTINGS_COOLDOWN_MS
                    &&& my_interests@.len() <= MAX_SETTINGS_LEN
                    &&& my_username@.len() <= MAX_SETTINGS_LEN
                    &&& ev.from == caller
                    &&& ev.username@ == my_username@
                    &&& ev.interests@ == my_interests@
                    &&& map_updated_at(
                        old(self).account_settings_map@,
                        final(self).account_settings_map@,
                        caller,
                    )
                    &&& final(self).account_settings_map@[caller].username@ == my_username@
                    &&& final(self).account_settings_map@[caller].interests@ == my_interests@
                    &&& final(self).account_settings_map@[caller].max_feed
                        == max_messages_in_my_feed
                    &&& final(self).account_settings_map@[caller].max_paid_feed
                        == max_messages_in_my_paid_feed
                    &&& final(self).account_settings_map@[caller].last_update == now
                    &&& if my_username@ == username_of(old(self).account_settings_map@, caller) {
                        final(self).username_map@ == old(self).username_map@
                    } else {
                        &&& !old(self).username_map@.contains_key(my_username@)
                        &&& final(self).username_map@ == old(self).username_map@.remove(
                            username_of(old(self).account_settings_map@, caller),
                        ).insert(my_username@, caller)
                    }
                    &&& same_social(*old(self), *final(self))
                    &&& same_message_system(*old(self), *final(self))
                    &&& same_paid_system(*old(self), *final(self))
                    &&& same_reward_state(*old(self), *final(self))
                    &&& same_caps(*old(self), *final(self))
                },
                Err(e) => {
                    &&& *final(self) == *old(self)
                    &&& if now.saturating_sub(
                        last_update_of(old(self).account_settings_map@, caller),
                    ) < SETTINGS_COOLDOWN_MS {
                        e == Error::CannotUpdateInterestsWithin24Hours
                    } else if my_interests@.len() > MAX_SETTINGS_LEN || my_username@.len()
                        > MAX_SETTINGS_LEN {
                        e == Error::DataTooLarge
                    } else {
                        &&& e == Error::UsernameTaken
                        &&& my_username@ != username_of(old(self).account_settings_map@, caller)
                        &&& old(self).username_map@.contains_key(my_username@)
                    }
                },
            },
    {
        let last_update = match self.account_settings_map.get(&caller) {
            Some(s) => s.last_update,
            None => 0,
        };
        if now.saturating_sub(last_update) < SETTINGS_COOLDOWN_MS {
            return Err(Error::CannotUpdateInterestsWithin24Hours);
        }
        if my_interests.len() > MAX_SETTINGS_LEN || my_username.len() > MAX_SETTINGS_LEN {
            return Err(Error::DataTooLarge);
        }
        let oldname: Vec<u8> = match self.account_settings_map.get(&caller) {
            Some(s) => clone_bytes(&s.username),
            None => Vec::new(),
        };
        let changed = !bytes_eq(&my_username, &oldname);
        if changed {
            if self.username_map.contains_key(&my_username) {
                return Err(Error::UsernameTaken);
            }
            self.username_map.insert(clone_bytes(&my_username), caller);
            let _released = self.username_map.remove(&oldname);
            proof {
                assert(self.username_map@ =~= old(self).username_map@.remove(oldname@).insert(
                    my_username@,
                    caller,
                ));
            }
        }
        let settings_update = Settings {
            username: clone_bytes(&my_username),
            interests: clone_bytes(&my_interests),
            max_feed: max_messages_in_my_feed,
            max_paid_feed: max_messages_in_my_paid_feed,
            last_update: now,
        };
        self.account_settings_map.insert(caller, settings_update);
        proof {
            let o = *old(self);
            let uold = username_of(o.account_settings_map@, caller);
            let unew = my_username@;
            assert(oldname@ == uold);
            assert(self.account_settings_map@.dom() =~= o.account_settings_map@.dom().insert(
                caller,
            ));
            assert forall|u: Seq<u8>| #[trigger] self.username_map@.contains_key(u) implies {
                &&& self.account_settings_map@.contains_key(self.username_map@[u])
                &&& self.account_settings_map@[self.username_map@[u]].username@ == u
            } by {
                if changed && u == unew {
                } else {
                    assert(o.username_map@.contains_key(u));
                    let b = o.username_map@[u];
                    assert(o.account_settings_map@.contains_key(b));
                    assert(o.account_settings_map@[b].username@ == u);
                    if b == caller {
                        assert(u == uold);
                        if changed {
                            assert(!self.username_map@.contains_key(u));
                            assert(false);
                        }
                    }
                }
            }
            assert forall|a: u64| #[trigger]
                self.account_settings_map@.contains_key(a)
                    && self.account_settings_map@[a].username@.len() > 0 implies {
                &&& self.username_map@.contains_key(self.account_settings_map@[a].username@)
                &&& self.username_map@[self.account_settings_map@[a].username@] == a
            } by {
                if a == caller {
                    if !changed {
                        if unew.len() > 0 {
                            assert(o.account_settings_map@.contains_key(caller));
                            assert(o.account_settings_map@[caller].username@ == uold);
                        }
                    }
                } else {
                    let w = o.account_settings_map@[a].username@;
                    assert(o.username_map@.contains_key(w));
                    assert(o.username_map@[w] == a);
                    if w == uold {
                        if o.account_settings_map@.contains_key(caller) {
                            assert(o.username_map@[uold] == caller);
                            assert(false);
                        } else {
                            assert(uold.len() == 0);
                            assert(false);
                        }
                    }
                    if changed {
                        assert(w != unew);
                    }
                }
            }
        }
        Ok(SettingsUpdated { from: caller, username: my_username, interests: my_interests })
    }
}

} // verus!
