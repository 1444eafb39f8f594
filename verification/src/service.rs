//! The command layer: one service object owns the configuration store,
//! the session registry and the statistics aggregator, and every
//! inbound command is a method on it.  The front end only parses text
//! into ids and relays the descriptors and refusals these methods
//! return.

use vstd::prelude::*;
use vstd::string::StringExecFns;
use crate::config::ensured_guild;
use crate::config::ensured_user;
use crate::config::Config;
use crate::events::CommandError;
use crate::events::DrawEvent;
use crate::events::MoveReport;
use crate::events::Outcome;
use crate::events::Refusal;
use crate::events::SessionState;
use crate::events::Side;
use crate::events::SubmitError;
use crate::perm::chan_scoped;
use crate::perm::resolve;
use crate::perm::GuildConfig;
use crate::registry::SessionRegistry;
use crate::config::UserConfig;
use crate::session::draw_post;
use crate::session::retained;
use crate::session::RetentionPolicy;
use crate::session::resign_post;
use crate::session::submit_move_post;
use crate::session::ChannelGame;
use crate::stats::StatsAggregator;
use crate::stats::entry_or_zero;
use crate::stats::UserStats;
use crate::text::dec_digits;
use crate::text::scrub_key;
use crate::text::scrubbed;
use crate::text::u64_to_dec;
use crate::text::mention_id;
use crate::text::parse_mention;

verus! {

/// The permission table the guild would have right after its record is
/// ensured: its current one, or the seeded default for a guild seen for
/// the first time.
pub open spec fn effective_guild_perms(g: Map<u64, GuildConfig>, guild: u64) -> Map<
    Seq<char>,
    bool,
> {
    if g.contains_key(guild) {
        g[guild].permissions@
    } else {
        Map::<Seq<char>, bool>::empty().insert("allow"@, true)
    }
}

/// How commands read a permission lookup: a resolved `true` permits; a
/// resolved `false` or an unresolved key denies.
pub open spec fn allowed(perms: Map<Seq<char>, bool>, key: Seq<char>, user: u64, channel: u64) -> bool {
    match resolve(perms, key, dec_digits(user as int), dec_digits(channel as int)) {
        Some(r) => r.0,
        None => false,
    }
}

/// The settings table the guild would have right after its record is
/// ensured.
pub open spec fn effective_guild_settings(g: Map<u64, GuildConfig>, guild: u64) -> Map<
    Seq<char>,
    Seq<char>,
> {
    if g.contains_key(guild) {
        g[guild].settings@
    } else {
        Map::<Seq<char>, Seq<char>>::empty().insert("deleteOld"@, "onNext"@)
    }
}

/// The preferences the user would have right after their record is
/// ensured.
pub open spec fn effective_user_settings(u: Map<u64, UserConfig>, user: u64) -> Map<
    Seq<char>,
    Seq<char>,
> {
    if u.contains_key(user) {
        u[user].settings@
    } else {
        Map::<Seq<char>, Seq<char>>::empty().insert("flipIfBlack"@, "true"@)
    }
}

/// How a `deleteOld` setting value reads as a retention policy; an
/// unrecognized value keeps everything.
pub open spec fn parse_policy(s: Seq<char>) -> RetentionPolicy {
    if s == "onNext"@ {
        RetentionPolicy::OnNext
    } else if s == "onEnd"@ {
        RetentionPolicy::OnEnd
    } else if s == "onRequest"@ {
        RetentionPolicy::OnRequest
    } else {
        RetentionPolicy::Off
    }
}

/// The retention policy in force for a guild: its `deleteOld` setting
/// read as a policy, the seeded one-deep policy for a guild seen for
/// the first time, and keep-everything where the setting was lost.
pub open spec fn effective_policy(g: Map<u64, GuildConfig>, guild: u64) -> RetentionPolicy {
    if g.contains_key(guild) {
        if g[guild].settings@.contains_key("deleteOld"@) {
            parse_policy(g[guild].settings@["deleteOld"@])
        } else {
            RetentionPolicy::Off
        }
    } else {
        RetentionPolicy::OnNext
    }
}

/// The process-wide registries, constructed once at startup and handed
/// to every request handler.
pub struct Service {
    pub config: Config,
    pub sessions: SessionRegistry,
    pub stats: StatsAggregator,
}

impl Service {
    pub fn new() -> (r: Service)
        ensures
            r.config.guild_settings@ == Map::<u64, GuildConfig>::empty(),
            r.config.user_prefs@.dom() == Set::<u64>::empty(),
            r.sessions@ == Map::<u64, ChannelGame>::empty(),
            r.stats@ == Map::<u64, crate::stats::UserStats>::empty(),
    {
        Service { config: Config::new(), sessions: SessionRegistry::new(), stats: StatsAggregator::new() }
    }

    /// Gate an action on a permission key resolved for the acting user
    /// in the channel, creating the guild's record if needed.
    fn check_perm(&mut self, guild: u64, channel: u64, actor: u64, key: String) -> (r: bool)
        ensures
            r == allowed(
                effective_guild_perms(old(self).config.guild_settings@, guild),
                key@,
                actor,
                channel,
            ),
            ensured_guild(old(self).config.guild_settings@, final(self).config.guild_settings@, guild),
            final(self).config.user_prefs == old(self).config.user_prefs,
            final(self).sessions == old(self).sessions,
            final(self).stats == old(self).stats,
    {
        self.config.lazy_guild(guild);
        match self.config.guild_settings.get(&guild) {
            Some(g) => match g.get_perm(key, actor, channel) {
                Some((b, _)) => b,
                None => false,
            },
            None => {
                proof {
                    assert(false);
                }
                false
            },
        }
    }

    /// Start a challenge in the channel: gated on `chess.games.allow`,
    /// against the user the opponent text mentions.  A channel whose
    /// session is not inactive refuses; otherwise the slot is replaced
    /// whole and the returned side is the initiator's.
    pub fn play(&mut self, guild: u64, channel: u64, actor: u64, opponent_text: &str) -> (r:
        Result<Side, CommandError>)
        ensures
            ensured_guild(old(self).config.guild_settings@, final(self).config.guild_settings@, guild),
            final(self).config.user_prefs == old(self).config.user_prefs,
            final(self).stats == old(self).stats,
            ({
                let ok = allowed(
                    effective_guild_perms(old(self).config.guild_settings@, guild),
                    "chess.games.allow"@,
                    actor,
                    channel,
                );
                let mention = mention_id(opponent_text@);
                &&& (!ok ==> r == Err::<Side, CommandError>(CommandError::PermissionDenied)
                    && final(self).sessions@ == old(self).sessions@)
                &&& (ok && mention is None ==> r == Err::<Side, CommandError>(
                    CommandError::BadMention,
                ) && final(self).sessions@ == old(self).sessions@)
                &&& (ok && mention is Some && old(self).sessions@.contains_key(channel)
                    && old(self).sessions@[channel].state != SessionState::Inactive ==> r == Err::<
                    Side,
                    CommandError,
                >(CommandError::Refused(Refusal::AlreadyInProgress)) && final(self).sessions@
                    == old(self).sessions@)
                &&& (ok && mention is Some && (!old(self).sessions@.contains_key(channel)
                    || old(self).sessions@[channel].state == SessionState::Inactive) ==> {
                    let slot = final(self).sessions@[channel];
                    &&& r is Ok
                    &&& final(self).sessions@ == old(self).sessions@.insert(channel, slot)
                    &&& slot.state == SessionState::Requested
                    &&& slot.initiator == r->Ok_0
                    &&& slot.user_of(r->Ok_0) == actor
                    &&& slot.user_of(r->Ok_0.spec_other()) == mention->0
                    &&& slot.draw_offer is None
                    &&& slot.last_move is None
                    &&& slot.old_boards@ == Seq::<u64>::empty()
                })
            }),
    {
        let permitted = self.check_perm(guild, channel, actor, String::from_str(
            "chess.games.allow",
        ));
        if !permitted {
            return Err(CommandError::PermissionDenied);
        }
        let opponent = match parse_mention(opponent_text) {
            Some(o) => o,
            None => {
                return Err(CommandError::BadMention);
            },
        };
        let mut slot = match self.sessions.take(channel) {
            Some(g) => g,
            None => ChannelGame::new(),
        };
        let started = slot.start(actor, opponent);
        self.sessions.put(channel, slot);
        proof {
            if old(self).sessions@.contains_key(channel) && started is Err {
                assert(final(self).sessions@ =~= old(self).sessions@);
            }
        }
        match started {
            Ok(side) => Ok(side),
            Err(e) => Err(CommandError::Refused(e)),
        }
    }

    /// The challenged user takes the pending game.
    pub fn accept(&mut self, channel: u64, actor: u64) -> (r: Result<(), CommandError>)
        ensures
            final(self).config == old(self).config,
            final(self).stats == old(self).stats,
            !old(self).sessions@.contains_key(channel) ==> r == Err::<(), CommandError>(
                CommandError::NoSession,
            ) && final(self).sessions@ == old(self).sessions@,
            old(self).sessions@.contains_key(channel) ==> {
                let pre = old(self).sessions@[channel];
                &&& (pre.state != SessionState::Requested ==> r == Err::<(), CommandError>(
                    CommandError::Refused(Refusal::NotRequested),
                ) && final(self).sessions@ == old(self).sessions@)
                &&& (pre.state == SessionState::Requested && actor != pre.spec_other_id() ==> r
                    == Err::<(), CommandError>(CommandError::Refused(Refusal::WrongActor)) && final(self).sessions@ == old(self).sessions@)
                &&& (pre.state == SessionState::Requested && actor == pre.spec_other_id() ==> r
                    is Ok && final(self).sessions@ == old(self).sessions@.insert(
                    channel,
                    (ChannelGame { state: SessionState::Running, ..pre }),
                ))
            },
    {
        let mut slot = match self.sessions.take(channel) {
            Some(g) => g,
            None => {
                return Err(CommandError::NoSession);
            },
        };
        let res = slot.accept(actor);
        self.sessions.put(channel, slot);
        proof {
            if res is Err {
                assert(final(self).sessions@ =~= old(self).sessions@);
            }
        }
        match res {
            Ok(()) => Ok(()),
            Err(e) => Err(CommandError::Refused(e)),
        }
    }

    /// The challenged user turns the pending game down.
    pub fn decline(&mut self, channel: u64, actor: u64) -> (r: Result<(), CommandError>)
        ensures
            final(self).config == old(self).config,
            final(self).stats == old(self).stats,
            !old(self).sessions@.contains_key(channel) ==> r == Err::<(), CommandError>(
                CommandError::NoSession,
            ) && final(self).sessions@ == old(self).sessions@,
            old(self).sessions@.contains_key(channel) ==> {
                let pre = old(self).sessions@[channel];
                &&& (pre.state != SessionState::Requested ==> r == Err::<(), CommandError>(
                    CommandError::Refused(Refusal::NotRequested),
                ) && final(self).sessions@ == old(self).sessions@)
                &&& (pre.state == SessionState::Requested && actor != pre.spec_other_id() ==> r
                    == Err::<(), CommandError>(CommandError::Refused(Refusal::WrongActor)) && final(self).sessions@ == old(self).sessions@)
                &&& (pre.state == SessionState::Requested && actor == pre.spec_other_id() ==> r
                    is Ok && final(self).sessions@ == old(self).sessions@.insert(
                    channel,
                    (ChannelGame { state: SessionState::Inactive, ..pre }),
                ))
            },
    {
        let mut slot = match self.sessions.take(channel) {
            Some(g) => g,
            None => {
                return Err(CommandError::NoSession);
            },
        };
        let res = slot.decline(actor);
        self.sessions.put(channel, slot);
        proof {
            if res is Err {
                assert(final(self).sessions@ =~= old(self).sessions@);
            }
        }
        match res {
            Ok(()) => Ok(()),
            Err(e) => Err(CommandError::Refused(e)),
        }
    }

    /// The initiator withdraws the pending challenge.
    pub fn cancel(&mut self, channel: u64, actor: u64) -> (r: Result<(), CommandError>)
        ensures
            final(self).config == old(self).config,
            final(self).stats == old(self).stats,
            !old(self).sessions@.contains_key(channel) ==> r == Err::<(), CommandError>(
                CommandError::NoSession,
            ) && final(self).sessions@ == old(self).sessions@,
            old(self).sessions@.contains_key(channel) ==> {
                let pre = old(self).sessions@[channel];
                &&& (pre.state != SessionState::Requested ==> r == Err::<(), CommandError>(
                    CommandError::Refused(Refusal::NotRequested),
                ) && final(self).sessions@ == old(self).sessions@)
                &&& (pre.state == SessionState::Requested && actor != pre.spec_initiator_id()
                    ==> r == Err::<(), CommandError>(CommandError::Refused(Refusal::WrongActor))
                    && final(self).sessions@ == old(self).sessions@)
                &&& (pre.state == SessionState::Requested && actor == pre.spec_initiator_id()
                    ==> r is Ok && final(self).sessions@ == old(self).sessions@.insert(
                    channel,
                    (ChannelGame { state: SessionState::Inactive, ..pre }),
                ))
            },
    {
        let mut slot = match self.sessions.take(channel) {
            Some(g) => g,
            None => {
                return Err(CommandError::NoSession);
            },
        };
        let res = slot.cancel(actor);
        self.sessions.put(channel, slot);
        proof {
            if res is Err {
                assert(final(self).sessions@ =~= old(self).sessions@);
            }
        }
        match res {
            Ok(()) => Ok(()),
            Err(e) => Err(CommandError::Refused(e)),
        }
    }

    /// Treat a plain channel message as a move submission for the
    /// channel's session, if it has one.
    pub fn message_move(&mut self, channel: u64, actor: u64, text: &str) -> (r: Option<
        Result<MoveReport, SubmitError>,
    >)
        ensures
            final(self).config == old(self).config,
            !old(self).sessions@.contains_key(channel) ==> r is None && final(self).sessions@
                == old(self).sessions@ && final(self).stats == old(self).stats,
            old(self).sessions@.contains_key(channel) ==> {
                &&& r is Some
                &&& final(self).sessions@ == old(self).sessions@.insert(
                    channel,
                    final(self).sessions@[channel],
                )
                &&& submit_move_post(
                    old(self).sessions@[channel],
                    final(self).sessions@[channel],
                    old(self).stats@,
                    final(self).stats@,
                    actor,
                    text@,
                    r->Some_0,
                )
            },
    {
        let mut slot = match self.sessions.take(channel) {
            Some(g) => g,
            None => {
                return None;
            },
        };
        let res = slot.submit_move(actor, text, &mut self.stats);
        self.sessions.put(channel, slot);
        Some(res)
    }

    /// A participant resigns the channel's running game.
    pub fn resign(&mut self, channel: u64, actor: u64) -> (r: Result<
        Option<Outcome>,
        CommandError,
    >)
        ensures
            final(self).config == old(self).config,
            !old(self).sessions@.contains_key(channel) ==> r == Err::<Option<Outcome>, CommandError>(
                CommandError::NoSession,
            ) && final(self).sessions@ == old(self).sessions@ && final(self).stats == old(self).stats,
            old(self).sessions@.contains_key(channel) ==> {
                &&& final(self).sessions@ == old(self).sessions@.insert(
                    channel,
                    final(self).sessions@[channel],
                )
                &&& resign_post(
                    old(self).sessions@[channel],
                    final(self).sessions@[channel],
                    old(self).stats@,
                    final(self).stats@,
                    actor,
                    match r {
                        Ok(out) => Ok(out),
                        Err(CommandError::Refused(f)) => Err(f),
                        Err(_) => Err(Refusal::NotRunning),
                    },
                )
                &&& (r is Err ==> r matches Err(CommandError::Refused(_)))
            },
    {
        let mut slot = match self.sessions.take(channel) {
            Some(g) => g,
            None => {
                return Err(CommandError::NoSession);
            },
        };
        let res = slot.resign(actor, &mut self.stats);
        self.sessions.put(channel, slot);
        match res {
            Ok(out) => Ok(out),
            Err(e) => Err(CommandError::Refused(e)),
        }
    }

    /// A participant offers a draw, or claims or accepts one, in the
    /// channel's running game.
    pub fn draw(&mut self, channel: u64, actor: u64) -> (r: Result<DrawEvent, CommandError>)
        ensures
            final(self).config == old(self).config,
            !old(self).sessions@.contains_key(channel) ==> r == Err::<DrawEvent, CommandError>(
                CommandError::NoSession,
            ) && final(self).sessions@ == old(self).sessions@ && final(self).stats == old(self).stats,
            old(self).sessions@.contains_key(channel) ==> {
                &&& final(self).sessions@ == old(self).sessions@.insert(
                    channel,
                    final(self).sessions@[channel],
                )
                &&& draw_post(
                    old(self).sessions@[channel],
                    final(self).sessions@[channel],
                    old(self).stats@,
                    final(self).stats@,
                    actor,
                    match r {
                        Ok(ev) => Ok(ev),
                        Err(CommandError::Refused(f)) => Err(f),
                        Err(_) => Err(Refusal::NotRunning),
                    },
                )
                &&& (r is Err ==> r matches Err(CommandError::Refused(_)))
            },
    {
        let mut slot = match self.sessions.take(channel) {
            Some(g) => g,
            None => {
                return Err(CommandError::NoSession);
            },
        };
        let res = slot.offer_or_resolve_draw(actor, &mut self.stats);
        self.sessions.put(channel, slot);
        match res {
            Ok(ev) => Ok(ev),
            Err(e) => Err(CommandError::Refused(e)),
        }
    }

    /// A board may be shown for the channel's session unless it is a
    /// pending challenge.
    pub fn board(&self, channel: u64) -> (r: Result<(), CommandError>)
        ensures
            !self.sessions@.contains_key(channel) ==> r == Err::<(), CommandError>(
                CommandError::NoSession,
            ),
            self.sessions@.contains_key(channel) && self.sessions@[channel].state
                == SessionState::Requested ==> r == Err::<(), CommandError>(
                CommandError::Refused(Refusal::NotRequested),
            ),
            self.sessions@.contains_key(channel) && self.sessions@[channel].state
                != SessionState::Requested ==> r is Ok,
    {
        match self.sessions.get(channel) {
            None => Err(CommandError::NoSession),
            Some(slot) => {
                if slot.can_render() {
                    Ok(())
                } else {
                    Err(CommandError::Refused(Refusal::NotRequested))
                }
            },
        }
    }

    /// The guild's retention policy, creating its record if needed.
    fn policy_of(&mut self, guild: u64) -> (p: RetentionPolicy)
        ensures
            p == effective_policy(old(self).config.guild_settings@, guild),
            ensured_guild(old(self).config.guild_settings@, final(self).config.guild_settings@, guild),
            final(self).config.user_prefs == old(self).config.user_prefs,
            final(self).sessions == old(self).sessions,
            final(self).stats == old(self).stats,
    {
        self.config.lazy_guild(guild);
        let key = String::from_str("deleteOld");
        match self.config.guild_settings.get(&guild) {
            Some(g) => match g.get_setting(&key) {
                Some(v) => {
                    if *v == String::from_str("onNext") {
                        RetentionPolicy::OnNext
                    } else if *v == String::from_str("onEnd") {
                        RetentionPolicy::OnEnd
                    } else if *v == String::from_str("onRequest") {
                        RetentionPolicy::OnRequest
                    } else {
                        RetentionPolicy::Off
                    }
                },
                None => RetentionPolicy::Off,
            },
            None => {
                proof {
                    assert(false);
                }
                RetentionPolicy::Off
            },
        }
    }

    /// Note a freshly posted board id against the channel's session and
    /// say which earlier board to delete, per the guild's retention
    /// policy.
    pub fn note_render(&mut self, guild: u64, channel: u64, sent: u64) -> (r: Result<
        Option<u64>,
        CommandError,
    >)
        ensures
            final(self).config.user_prefs == old(self).config.user_prefs,
            final(self).stats == old(self).stats,
            !old(self).sessions@.contains_key(channel) ==> r == Err::<Option<u64>, CommandError>(
                CommandError::NoSession,
            ) && final(self).sessions@ == old(self).sessions@ && final(self).config == old(
                self,
            ).config,
            old(self).sessions@.contains_key(channel) ==> {
                let p = effective_policy(old(self).config.guild_settings@, guild);
                let pre = old(self).sessions@[channel];
                let slot = final(self).sessions@[channel];
                &&& ensured_guild(
                    old(self).config.guild_settings@,
                    final(self).config.guild_settings@,
                    guild,
                )
                &&& r is Ok
                &&& final(self).sessions@ == old(self).sessions@.insert(channel, slot)
                &&& slot == (ChannelGame { old_boards: slot.old_boards, ..pre })
                &&& slot.old_boards@ == retained(pre.old_boards@, sent, p).0
                &&& r->Ok_0 == retained(pre.old_boards@, sent, p).1
            },
    {
        if !self.sessions.contains(channel) {
            return Err(CommandError::NoSession);
        }
        let policy = self.policy_of(guild);
        let mut slot = match self.sessions.take(channel) {
            Some(g) => g,
            None => {
                proof {
                    assert(false);
                }
                ChannelGame::new()
            },
        };
        let deleted = slot.note_render(sent, policy);
        self.sessions.put(channel, slot);
        Ok(deleted)
    }

    /// The user's statistics as they stand, a zero record for a user
    /// never seen.
    pub fn statistics(&self, user: u64) -> (r: UserStats)
        ensures
            r == entry_or_zero(self.stats@, user),
    {
        self.stats.snapshot(user)
    }

    /// Upsert the channel-scoped `games.allow` permission of the guild.
    fn set_games_allow(&mut self, guild: u64, channel: u64, value: bool)
        ensures
            final(self).config.user_prefs == old(self).config.user_prefs,
            final(self).sessions == old(self).sessions,
            final(self).stats == old(self).stats,
            final(self).config.guild_settings@.contains_key(guild),
            final(self).config.guild_settings@ == old(self).config.guild_settings@.insert(
                guild,
                final(self).config.guild_settings@[guild],
            ),
            final(self).config.guild_settings@[guild].permissions@ == effective_guild_perms(
                old(self).config.guild_settings@,
                guild,
            ).insert(chan_scoped("games.allow"@, dec_digits(channel as int)), value),
            final(self).config.guild_settings@[guild].settings@ == effective_guild_settings(
                old(self).config.guild_settings@,
                guild,
            ),
    {
        self.config.lazy_guild(guild);
        let mut gc = match self.config.guild_settings.remove(&guild) {
            Some(g) => g,
            None => {
                proof {
                    assert(false);
                }
                GuildConfig::new()
            },
        };
        let mut key = String::from_str("games.allow.#");
        key.append(u64_to_dec(channel).as_str());
        proof {
            reveal_strlit("games.allow.#");
            reveal_strlit("games.allow");
            assert(key@ =~= chan_scoped("games.allow"@, dec_digits(channel as int)));
        }
        gc.set_perm(key, value);
        self.config.guild_settings.insert(guild, gc);
        proof {
            assert(final(self).config.guild_settings@ =~= old(self).config.guild_settings@.insert(
                guild,
                final(self).config.guild_settings@[guild],
            ));
        }
    }

    /// Allow all games in the channel.
    pub fn enable(&mut self, guild: u64, channel: u64)
        ensures
            final(self).config.user_prefs == old(self).config.user_prefs,
            final(self).sessions == old(self).sessions,
            final(self).stats == old(self).stats,
            final(self).config.guild_settings@.contains_key(guild),
            final(self).config.guild_settings@ == old(self).config.guild_settings@.insert(
                guild,
                final(self).config.guild_settings@[guild],
            ),
            final(self).config.guild_settings@[guild].permissions@ == effective_guild_perms(
                old(self).config.guild_settings@,
                guild,
            ).insert(chan_scoped("games.allow"@, dec_digits(channel as int)), true),
            final(self).config.guild_settings@[guild].settings@ == effective_guild_settings(
                old(self).config.guild_settings@,
                guild,
            ),
    {
        self.set_games_allow(guild, channel, true);
    }

    /// Forbid all games in the channel.
    pub fn disable(&mut self, guild: u64, channel: u64)
        ensures
            final(self).config.user_prefs == old(self).config.user_prefs,
            final(self).sessions == old(self).sessions,
            final(self).stats == old(self).stats,
            final(self).config.guild_settings@.contains_key(guild),
            final(self).config.guild_settings@ == old(self).config.guild_settings@.insert(
                guild,
                final(self).config.guild_settings@[guild],
            ),
            final(self).config.guild_settings@[guild].permissions@ == effective_guild_perms(
                old(self).config.guild_settings@,
                guild,
            ).insert(chan_scoped("games.allow"@, dec_digits(channel as int)), false),
            final(self).config.guild_settings@[guild].settings@ == effective_guild_settings(
                old(self).config.guild_settings@,
                guild,
            ),
    {
        self.set_games_allow(guild, channel, false);
    }

    /// Read one guild setting, creating the guild's record if needed.
    pub fn get_guild_setting(&mut self, guild: u64, key: String) -> (r: Option<String>)
        ensures
            ensured_guild(old(self).config.guild_settings@, final(self).config.guild_settings@, guild),
            final(self).config.user_prefs == old(self).config.user_prefs,
            final(self).sessions == old(self).sessions,
            final(self).stats == old(self).stats,
            ({
                let s = effective_guild_settings(old(self).config.guild_settings@, guild);
                match r {
                    Some(v) => s.contains_key(key@) && v@ == s[key@],
                    None => !s.contains_key(key@),
                }
            }),
    {
        self.config.lazy_guild(guild);
        match self.config.guild_settings.get(&guild) {
            Some(g) => match g.get_setting(&key) {
                Some(v) => Some(v.clone()),
                None => None,
            },
            None => {
                proof {
                    assert(false);
                }
                None
            },
        }
    }

    /// Upsert one guild setting and hand back the value it replaced.
    pub fn set_guild_setting(&mut self, guild: u64, key: String, value: String) -> (r: Option<
        String,
    >)
        ensures
            final(self).config.user_prefs == old(self).config.user_prefs,
            final(self).sessions == old(self).sessions,
            final(self).stats == old(self).stats,
            final(self).config.guild_settings@.contains_key(guild),
            final(self).config.guild_settings@ == old(self).config.guild_settings@.insert(
                guild,
                final(self).config.guild_settings@[guild],
            ),
            final(self).config.guild_settings@[guild].settings@ == effective_guild_settings(
                old(self).config.guild_settings@,
                guild,
            ).insert(key@, value@),
            final(self).config.guild_settings@[guild].permissions@ == effective_guild_perms(
                old(self).config.guild_settings@,
                guild,
            ),
            ({
                let s = effective_guild_settings(old(self).config.guild_settings@, guild);
                match r {
                    Some(v) => s.contains_key(key@) && v@ == s[key@],
                    None => !s.contains_key(key@),
                }
            }),
    {
        self.config.lazy_guild(guild);
        let mut gc = match self.config.guild_settings.remove(&guild) {
            Some(g) => g,
            None => {
                proof {
                    assert(false);
                }
                GuildConfig::new()
            },
        };
        let previous = match gc.get_setting(&key) {
            Some(v) => Some(v.clone()),
            None => None,
        };
        gc.set_setting(key, value);
        self.config.guild_settings.insert(guild, gc);
        proof {
            assert(final(self).config.guild_settings@ =~= old(self).config.guild_settings@.insert(
                guild,
                final(self).config.guild_settings@[guild],
            ));
        }
        previous
    }

    /// Read one of the acting user's preferences, gated on
    /// `prefs.allow`.
    pub fn preference_get(&mut self, guild: u64, channel: u64, actor: u64, key: String) -> (r:
        Result<Option<String>, CommandError>)
        ensures
            ensured_guild(old(self).config.guild_settings@, final(self).config.guild_settings@, guild),
            final(self).sessions == old(self).sessions,
            final(self).stats == old(self).stats,
            ({
                let ok = allowed(
                    effective_guild_perms(old(self).config.guild_settings@, guild),
                    "prefs.allow"@,
                    actor,
                    channel,
                );
                &&& (!ok ==> r == Err::<Option<String>, CommandError>(
                    CommandError::PermissionDenied,
                ) && final(self).config.user_prefs == old(self).config.user_prefs)
                &&& (ok ==> {
                    let s = effective_user_settings(old(self).config.user_prefs@, actor);
                    &&& ensured_user(
                        old(self).config.user_prefs@,
                        final(self).config.user_prefs@,
                        actor,
                    )
                    &&& match r {
                        Ok(Some(v)) => s.contains_key(key@) && v@ == s[key@],
                        Ok(None) => !s.contains_key(key@),
                        Err(_) => false,
                    }
                })
            }),
    {
        let permitted = self.check_perm(guild, channel, actor, String::from_str("prefs.allow"));
        if !permitted {
            return Err(CommandError::PermissionDenied);
        }
        self.config.lazy_user(actor);
        match self.config.user_prefs.get(&actor) {
            Some(u) => match u.get_setting(&key) {
                Some(v) => Ok(Some(v.clone())),
                None => Ok(None),
            },
            None => {
                proof {
                    assert(false);
                }
                Ok(None)
            },
        }
    }

    /// Upsert one of the acting user's preferences, gated on
    /// `prefs.allow`; hands back the value it replaced.
    pub fn preference_set(&mut self, guild: u64, channel: u64, actor: u64, key: String, value:
        String) -> (r: Result<Option<String>, CommandError>)
        ensures
            ensured_guild(old(self).config.guild_settings@, final(self).config.guild_settings@, guild),
            final(self).sessions == old(self).sessions,
            final(self).stats == old(self).stats,
            ({
                let ok = allowed(
                    effective_guild_perms(old(self).config.guild_settings@, guild),
                    "prefs.allow"@,
                    actor,
                    channel,
                );
                &&& (!ok ==> r == Err::<Option<String>, CommandError>(
                    CommandError::PermissionDenied,
                ) && final(self).config.user_prefs == old(self).config.user_prefs)
                &&& (ok ==> {
                    let s = effective_user_settings(old(self).config.user_prefs@, actor);
                    &&& final(self).config.user_prefs@.contains_key(actor)
                    &&& final(self).config.user_prefs@ == old(self).config.user_prefs@.insert(
                        actor,
                        final(self).config.user_prefs@[actor],
                    )
                    &&& final(self).config.user_prefs@[actor].settings@ == s.insert(key@, value@)
                    &&& match r {
                        Ok(Some(v)) => s.contains_key(key@) && v@ == s[key@],
                        Ok(None) => !s.contains_key(key@),
                        Err(_) => false,
                    }
                })
            }),
    {
        let permitted = self.check_perm(guild, channel, actor, String::from_str("prefs.allow"));
        if !permitted {
            return Err(CommandError::PermissionDenied);
        }
        self.config.lazy_user(actor);
        let mut uc = match self.config.user_prefs.remove(&actor) {
            Some(u) => u,
            None => {
                proof {
                    assert(false);
                }
                UserConfig::new()
            },
        };
        let previous = match uc.get_setting(&key) {
            Some(v) => Some(v.clone()),
            None => None,
        };
        uc.set_setting(key, value);
        self.config.user_prefs.insert(actor, uc);
        proof {
            assert(final(self).config.user_prefs@ =~= old(self).config.user_prefs@.insert(
                actor,
                final(self).config.user_prefs@[actor],
            ));
        }
        Ok(previous)
    }

    /// Upsert one literal permission key, scrubbed of mention
    /// punctuation.
    pub fn permissions_set(&mut self, guild: u64, key_raw: &str, value: bool)
        ensures
            final(self).config.user_prefs == old(self).config.user_prefs,
            final(self).sessions == old(self).sessions,
            final(self).stats == old(self).stats,
            final(self).config.guild_settings@.contains_key(guild),
            final(self).config.guild_settings@ == old(self).config.guild_settings@.insert(
                guild,
                final(self).config.guild_settings@[guild],
            ),
            final(self).config.guild_settings@[guild].permissions@ == effective_guild_perms(
                old(self).config.guild_settings@,
                guild,
            ).insert(scrubbed(key_raw@), value),
            final(self).config.guild_settings@[guild].settings@ == effective_guild_settings(
                old(self).config.guild_settings@,
                guild,
            ),
    {
        self.config.lazy_guild(guild);
        let mut gc = match self.config.guild_settings.remove(&guild) {
            Some(g) => g,
            None => {
                proof {
                    assert(false);
                }
                GuildConfig::new()
            },
        };
        gc.set_perm(scrub_key(key_raw), value);
        self.config.guild_settings.insert(guild, gc);
        proof {
            assert(final(self).config.guild_settings@ =~= old(self).config.guild_settings@.insert(
                guild,
                final(self).config.guild_settings@[guild],
            ));
        }
    }

    /// Remove exactly one literal permission key, scrubbed of mention
    /// punctuation; resolution then falls through to what remains.
    pub fn permissions_reset(&mut self, guild: u64, key_raw: &str)
        ensures
            final(self).config.user_prefs == old(self).config.user_prefs,
            final(self).sessions == old(self).sessions,
            final(self).stats == old(self).stats,
            final(self).config.guild_settings@.contains_key(guild),
            final(self).config.guild_settings@ == old(self).config.guild_settings@.insert(
                guild,
                final(self).config.guild_settings@[guild],
            ),
            final(self).config.guild_settings@[guild].permissions@ == effective_guild_perms(
                old(self).config.guild_settings@,
                guild,
            ).remove(scrubbed(key_raw@)),
            final(self).config.guild_settings@[guild].settings@ == effective_guild_settings(
                old(self).config.guild_settings@,
                guild,
            ),
    {
        self.config.lazy_guild(guild);
        let mut gc = match self.config.guild_settings.remove(&guild) {
            Some(g) => g,
            None => {
                proof {
                    assert(false);
                }
                GuildConfig::new()
            },
        };
        gc.unset_perm(scrub_key(key_raw));
        self.config.guild_settings.insert(guild, gc);
        proof {
            assert(final(self).config.guild_settings@ =~= old(self).config.guild_settings@.insert(
                guild,
                final(self).config.guild_settings@[guild],
            ));
        }
    }

    /// Resolve a permission key, scrubbed of mention punctuation, for
    /// the acting user in the channel.
    pub fn permissions_query(&mut self, guild: u64, channel: u64, actor: u64, key_raw: &str) -> (r:
        Option<(bool, String)>)
        ensures
            ensured_guild(old(self).config.guild_settings@, final(self).config.guild_settings@, guild),
            final(self).config.user_prefs == old(self).config.user_prefs,
            final(self).sessions == old(self).sessions,
            final(self).stats == old(self).stats,
            ({
                let m = resolve(
                    effective_guild_perms(old(self).config.guild_settings@, guild),
                    scrubbed(key_raw@),
                    dec_digits(actor as int),
                    dec_digits(channel as int),
                );
                match r {
                    Some((b, k)) => m == Some((b, k@)),
                    None => m is None,
                }
            }),
    {
        self.config.lazy_guild(guild);
        match self.config.guild_settings.get(&guild) {
            Some(g) => g.get_perm(scrub_key(key_raw), actor, channel),
            None => {
                proof {
                    assert(false);
                }
                None
            },
        }
    }
}

} // verus!
