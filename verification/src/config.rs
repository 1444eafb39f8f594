//! Lazily created per-guild and per-user configuration records.

use vstd::prelude::*;
use vstd::string::StringExecFns;
use std::collections::HashMap;
use crate::perm::GuildConfig;
use crate::strtable::StrMap;

verus! {

/// Preferences of one user, seeded at creation.
pub struct UserConfig {
    pub settings: StrMap<String>,
}

impl UserConfig {
    /// A fresh user record: the board is flipped when its owner plays
    /// black.
    pub fn new() -> (r: UserConfig)
        ensures
            r.settings@ == Map::<Seq<char>, Seq<char>>::empty().insert("flipIfBlack"@, "true"@),
    {
        let mut settings: StrMap<String> = StrMap::new();
        settings.insert(String::from_str("flipIfBlack"), String::from_str("true"));
        UserConfig { settings }
    }

    /// Read a preference.
    pub fn get_setting(&self, key: &String) -> (r: Option<&String>)
        ensures
            match r {
                Some(v) => self.settings@.contains_key(key@) && v@ == self.settings@[key@],
                None => !self.settings@.contains_key(key@),
            },
    {
        self.settings.get(key)
    }

    /// Upsert a preference.
    pub fn set_setting(&mut self, key: String, value: String)
        ensures
            final(self).settings@ == old(self).settings@.insert(key@, value@),
    {
        self.settings.insert(key, value);
    }
}

/// What `lazy_guild` guarantees: the record exists afterwards, an
/// existing record is untouched, and a fresh one holds exactly the
/// seeded defaults.
pub open spec fn ensured_guild(
    pre: Map<u64, GuildConfig>,
    post: Map<u64, GuildConfig>,
    id: u64,
) -> bool {
    &&& post.contains_key(id)
    &&& (pre.contains_key(id) ==> post == pre)
    &&& (!pre.contains_key(id) ==> {
        &&& post == pre.insert(id, post[id])
        &&& post[id].settings@ == Map::<Seq<char>, Seq<char>>::empty().insert(
            "deleteOld"@,
            "onNext"@,
        )
        &&& post[id].permissions@ == Map::<Seq<char>, bool>::empty().insert("allow"@, true)
    })
}

/// What `lazy_user` guarantees, in the same shape.
pub open spec fn ensured_user(
    pre: Map<u64, UserConfig>,
    post: Map<u64, UserConfig>,
    id: u64,
) -> bool {
    &&& post.contains_key(id)
    &&& (pre.contains_key(id) ==> post == pre)
    &&& (!pre.contains_key(id) ==> {
        &&& post == pre.insert(id, post[id])
        &&& post[id].settings@ == Map::<Seq<char>, Seq<char>>::empty().insert(
            "flipIfBlack"@,
            "true"@,
        )
    })
}

/// All configuration records, one per guild or user id once created.
pub struct Config {
    pub guild_settings: HashMap<u64, GuildConfig>,
    pub user_prefs: HashMap<u64, UserConfig>,
}

impl Config {
    pub fn new() -> (r: Config)
        ensures
            r.guild_settings@ == Map::<u64, GuildConfig>::empty(),
            r.user_prefs@ == Map::<u64, UserConfig>::empty(),
    {
        Config { guild_settings: HashMap::new(), user_prefs: HashMap::new() }
    }

    /// Create the guild's record with its defaults if it has none;
    /// idempotent, with no other observable effect.
    pub fn lazy_guild(&mut self, id: u64)
        ensures
            ensured_guild(old(self).guild_settings@, final(self).guild_settings@, id),
            final(self).user_prefs == old(self).user_prefs,
    {
        if !self.guild_settings.contains_key(&id) {
            self.guild_settings.insert(id, GuildConfig::new());
        }
    }

    /// Create the user's record with its defaults if it has none;
    /// idempotent, with no other observable effect.
    pub fn lazy_user(&mut self, id: u64)
        ensures
            ensured_user(old(self).user_prefs@, final(self).user_prefs@, id),
            final(self).guild_settings == old(self).guild_settings,
    {
        if !self.user_prefs.contains_key(&id) {
            self.user_prefs.insert(id, UserConfig::new());
        }
    }
}

} // verus!
