//! Cascading permission lookup over a guild's permission table.
//!
//! A permission key is a dotted segment path; an entry may be scoped to
//! a user (`.@<user>`), a channel (`.#<channel>`) or both.  Resolution
//! tries the most specific scope of the full key first and then drops
//! leading segments, so a short generic key supplies a default and
//! longer or scoped keys carve out exceptions.

use vstd::prelude::*;
use vstd::string::StrSliceExecFns;
use vstd::string::StringExecFns;
use crate::strtable::StrMap;
use crate::text::dec_digits;
use crate::text::u64_to_dec;

verus! {

/// `base.@user`
pub open spec fn user_scoped(base: Seq<char>, u: Seq<char>) -> Seq<char> {
    base + seq!['.', '@'] + u
}

/// `base.#channel`
pub open spec fn chan_scoped(base: Seq<char>, c: Seq<char>) -> Seq<char> {
    base + seq!['.', '#'] + c
}

/// `base.@user.#channel`
pub open spec fn both_scoped(base: Seq<char>, u: Seq<char>, c: Seq<char>) -> Seq<char> {
    chan_scoped(user_scoped(base, u), c)
}

/// One generalization level: the fully scoped key wins outright; else a
/// user-scoped grant applies, further restricted by any channel-scoped
/// entry; else the channel-scoped entry; else the unscoped base.
pub open spec fn resolve_at(
    perms: Map<Seq<char>, bool>,
    base: Seq<char>,
    u: Seq<char>,
    c: Seq<char>,
) -> Option<(bool, Seq<char>)> {
    let kuc = both_scoped(base, u, c);
    let ku = user_scoped(base, u);
    let kc = chan_scoped(base, c);
    if perms.contains_key(kuc) {
        Some((perms[kuc], kuc))
    } else if perms.contains_key(ku) {
        Some(
            (
                perms[ku] && (if perms.contains_key(kc) {
                    perms[kc]
                } else {
                    true
                }),
                ku,
            ),
        )
    } else if perms.contains_key(kc) {
        Some((perms[kc], kc))
    } else if perms.contains_key(base) {
        Some((perms[base], base))
    } else {
        None
    }
}

/// Index of the first `.` at or after `i`, or the length if none.
pub open spec fn first_dot(s: Seq<char>, i: int) -> int
    recommends
        0 <= i <= s.len(),
    decreases s.len() - i,
{
    if i >= s.len() {
        s.len() as int
    } else if s[i] == '.' {
        i
    } else {
        first_dot(s, i + 1)
    }
}

/// Full resolution: each level is tried in scope order before the
/// leading segment is dropped; `None` when no level matches.
pub open spec fn resolve(
    perms: Map<Seq<char>, bool>,
    key: Seq<char>,
    u: Seq<char>,
    c: Seq<char>,
) -> Option<(bool, Seq<char>)>
    decreases key.len(),
{
    match resolve_at(perms, key, u, c) {
        Some(r) => Some(r),
        None => {
            let d = first_dot(key, 0);
            if 0 <= d < key.len() {
                resolve(perms, key.subrange(d + 1, key.len() as int), u, c)
            } else {
                None
            }
        },
    }
}

/// Configuration of one guild: free-form settings and the permission
/// table, both seeded at creation.
pub struct GuildConfig {
    pub settings: StrMap<String>,
    pub permissions: StrMap<bool>,
}

impl GuildConfig {
    /// A fresh guild record: render history kept one deep, everything
    /// allowed.
    pub fn new() -> (r: GuildConfig)
        ensures
            r.settings@ == Map::<Seq<char>, Seq<char>>::empty().insert("deleteOld"@, "onNext"@),
            r.permissions@ == Map::<Seq<char>, bool>::empty().insert("allow"@, true),
    {
        let mut settings: StrMap<String> = StrMap::new();
        let mut permissions: StrMap<bool> = StrMap::new();
        settings.insert(String::from_str("deleteOld"), String::from_str("onNext"));
        permissions.insert(String::from_str("allow"), true);
        GuildConfig { settings, permissions }
    }

    /// Upsert one literal permission key.
    pub fn set_perm(&mut self, key: String, value: bool)
        ensures
            final(self).permissions@ == old(self).permissions@.insert(key@, value),
            final(self).settings == old(self).settings,
    {
        self.permissions.insert(key, value);
    }

    /// Remove exactly one literal permission key, never a
    /// generalization of it.
    pub fn unset_perm(&mut self, key: String)
        ensures
            final(self).permissions@ == old(self).permissions@.remove(key@),
            final(self).settings == old(self).settings,
    {
        self.permissions.remove(&key);
    }

    /// Read a guild setting.
    pub fn get_setting(&self, key: &String) -> (r: Option<&String>)
        ensures
            match r {
                Some(v) => self.settings@.contains_key(key@) && v@ == self.settings@[key@],
                None => !self.settings@.contains_key(key@),
            },
    {
        self.settings.get(key)
    }

    /// Upsert a guild setting.
    pub fn set_setting(&mut self, key: String, value: String)
        ensures
            final(self).settings@ == old(self).settings@.insert(key@, value@),
            final(self).permissions == old(self).permissions,
    {
        self.settings.insert(key, value);
    }

    /// Resolve a permission key for a user in a channel, per `resolve`.
    /// The key must already be normalized.
    #[verifier::loop_isolation(false)]
    pub fn get_perm(&self, key: String, user: u64, channel: u64) -> (r: Option<(bool, String)>)
        ensures
            ({
                let m = resolve(
                    self.permissions@,
                    key@,
                    dec_digits(user as int),
                    dec_digits(channel as int),
                );
                match r {
                    Some((b, k)) => m == Some((b, k@)),
                    None => m is None,
                }
            }),
    {
        let u_str = u64_to_dec(user);
        let c_str = u64_to_dec(channel);
        let ghost us = dec_digits(user as int);
        let ghost cs = dec_digits(channel as int);
        let ghost perms = self.permissions@;
        let n = key.as_str().unicode_len();
        proof {
            assert(key@.subrange(0, n as int) =~= key@);
        }
        let mut pos: usize = 0;
        loop
            invariant
                pos <= n,
                resolve(perms, key@, us, cs) == resolve(
                    perms,
                    key@.subrange(pos as int, n as int),
                    us,
                    cs,
                ),
            decreases n - pos,
        {
            let ghost suffix = key@.subrange(pos as int, n as int);
            let base: String = key.as_str().substring_char(pos, n).to_owned();
            let mut ku = base.clone();
            ku.append(".@");
            ku.append(u_str.as_str());
            let mut kuc = ku.clone();
            kuc.append(".#");
            kuc.append(c_str.as_str());
            let mut kc = base.clone();
            kc.append(".#");
            kc.append(c_str.as_str());
            proof {
                reveal_strlit(".@");
                reveal_strlit(".#");
                assert(ku@ =~= user_scoped(suffix, us));
                assert(kuc@ =~= both_scoped(suffix, us, cs));
                assert(kc@ =~= chan_scoped(suffix, cs));
            }
            match self.permissions.get(&kuc) {
                Some(b) => {
                    return Some((*b, kuc));
                },
                None => {},
            }
            let u_hit = self.permissions.get(&ku);
            let c_hit = self.permissions.get(&kc);
            match u_hit {
                Some(bu) => {
                    let restricted = *bu && (match c_hit {
                        Some(bc) => *bc,
                        None => true,
                    });
                    return Some((restricted, ku));
                },
                None => {},
            }
            match c_hit {
                Some(bc) => {
                    return Some((*bc, kc));
                },
                None => {},
            }
            match self.permissions.get(&base) {
                Some(b) => {
                    return Some((*b, base));
                },
                None => {},
            }
            let mut j: usize = pos;
            while j < n && key.as_str().get_char(j) != '.'
                invariant
                    pos <= j <= n,
                    forall|x: int| pos <= x < j ==> key@[x] != '.',
                decreases n - j,
            {
                j = j + 1;
            }
            proof {
                lemma_first_dot_scan(suffix, 0, j - pos);
            }
            if j == n {
                return None;
            }
            proof {
                assert(suffix.subrange(j - pos + 1, suffix.len() as int) =~= key@.subrange(
                    j + 1 as int,
                    n as int,
                ));
            }
            pos = j + 1;
        }
    }
}

/// The first dot lies between the start of the scan and the end of the
/// text.
pub proof fn lemma_first_dot_bounds(s: Seq<char>, i: int)
    requires
        0 <= i <= s.len(),
    ensures
        i <= first_dot(s, i) <= s.len(),
    decreases s.len() - i,
{
    if i < s.len() && s[i] != '.' {
        lemma_first_dot_bounds(s, i + 1);
    }
}

/// A scan that saw no dot before `j`, and a dot or the end at `j`,
/// found the first dot.
proof fn lemma_first_dot_scan(s: Seq<char>, i: int, j: int)
    requires
        0 <= i <= j <= s.len(),
        forall|x: int| i <= x < j ==> s[x] != '.',
        j < s.len() ==> s[j] == '.',
    ensures
        first_dot(s, i) == if j < s.len() {
            j
        } else {
            s.len() as int
        },
    decreases j - i,
{
    if i < j {
        lemma_first_dot_scan(s, i + 1, j);
    }
}

/// Precedence at the front level: the fully scoped entry wins; else a
/// user-scoped entry, restricted by any channel-scoped one; else the
/// channel-scoped entry; else the unscoped key; and only when none of
/// the four exists does resolution fall through to a shorter key.
pub proof fn lemma_resolve_precedence(
    perms: Map<Seq<char>, bool>,
    key: Seq<char>,
    u: Seq<char>,
    c: Seq<char>,
)
    ensures
        perms.contains_key(both_scoped(key, u, c)) ==> resolve(perms, key, u, c) == Some(
            (perms[both_scoped(key, u, c)], both_scoped(key, u, c)),
        ),
        !perms.contains_key(both_scoped(key, u, c)) && perms.contains_key(user_scoped(key, u))
            ==> resolve(perms, key, u, c) == Some(
            (
                perms[user_scoped(key, u)] && (if perms.contains_key(chan_scoped(key, c)) {
                    perms[chan_scoped(key, c)]
                } else {
                    true
                }),
                user_scoped(key, u),
            ),
        ),
        !perms.contains_key(both_scoped(key, u, c)) && !perms.contains_key(user_scoped(key, u))
            && perms.contains_key(chan_scoped(key, c)) ==> resolve(perms, key, u, c) == Some(
            (perms[chan_scoped(key, c)], chan_scoped(key, c)),
        ),
        !perms.contains_key(both_scoped(key, u, c)) && !perms.contains_key(user_scoped(key, u))
            && !perms.contains_key(chan_scoped(key, c)) && perms.contains_key(key) ==> resolve(
            perms,
            key,
            u,
            c,
        ) == Some((perms[key], key)),
        resolve_at(perms, key, u, c) is None && first_dot(key, 0) < key.len() ==> resolve(
            perms,
            key,
            u,
            c,
        ) == resolve(perms, key.subrange(first_dot(key, 0) + 1, key.len() as int), u, c),
        resolve_at(perms, key, u, c) is None && first_dot(key, 0) == key.len() ==> resolve(
            perms,
            key,
            u,
            c,
        ) is None,
{
    lemma_first_dot_bounds(key, 0);
}

/// Read your write: after `set(key, v)`, resolving that key yields
/// `(v, key)` unless a more specific scoped entry overrides it.
pub proof fn lemma_read_your_write(
    perms: Map<Seq<char>, bool>,
    key: Seq<char>,
    v: bool,
    u: Seq<char>,
    c: Seq<char>,
)
    requires
        !perms.insert(key, v).contains_key(both_scoped(key, u, c)),
        !perms.insert(key, v).contains_key(user_scoped(key, u)),
        !perms.insert(key, v).contains_key(chan_scoped(key, c)),
    ensures
        resolve(perms.insert(key, v), key, u, c) == Some((v, key)),
{
}

/// Whatever resolution returns, the matched key is a live entry of the
/// table.
pub proof fn lemma_resolve_key_present(
    perms: Map<Seq<char>, bool>,
    key: Seq<char>,
    u: Seq<char>,
    c: Seq<char>,
)
    ensures
        resolve(perms, key, u, c) matches Some(r) ==> perms.contains_key(r.1),
    decreases key.len(),
{
    if resolve_at(perms, key, u, c) is None {
        let d = first_dot(key, 0);
        if 0 <= d < key.len() {
            lemma_resolve_key_present(perms, key.subrange(d + 1, key.len() as int), u, c);
        }
    }
}

/// After `unset(kk)` no resolution matches `kk` any more: every answer
/// comes from an entry that is still present, so lookups fall through
/// to the remaining generalizations.
pub proof fn lemma_unset_never_matches(
    perms: Map<Seq<char>, bool>,
    kk: Seq<char>,
    key: Seq<char>,
    u: Seq<char>,
    c: Seq<char>,
)
    ensures
        resolve(perms.remove(kk), key, u, c) matches Some(r) ==> r.1 != kk
            && perms.remove(kk).contains_key(r.1),
{
    lemma_resolve_key_present(perms.remove(kk), key, u, c);
}

} // verus!
