//! Per-user lifetime statistics: counters created on demand and only ever
//! incremented, committed when a session reports events or a terminal
//! outcome.

use vstd::prelude::*;
use std::collections::HashMap;
use crate::events::Outcome;

verus! {

/// Increment that sticks at the top of the counter's range instead of
/// wrapping, so counters are monotonic without any precondition.
pub open spec fn sat_inc(n: u64) -> u64 {
    if n < u64::MAX {
        (n + 1) as u64
    } else {
        n
    }
}

/// Saturating sum, for display totals.
pub open spec fn sat_add(a: u64, b: u64) -> u64 {
    if a + b <= u64::MAX {
        (a + b) as u64
    } else {
        u64::MAX
    }
}

/// One user's lifetime counters.
#[derive(Clone, Copy, Debug, PartialEq, Eq, Structural)]
pub struct UserStats {
    pub moves_made: u64,
    pub pieces_captured: u64,
    pub checks_given: u64,
    pub won_checkmate: u64,
    pub won_default: u64,
    pub lost_checkmate: u64,
    pub lost_resigned: u64,
    pub drawn_stalemate: u64,
    pub drawn_agreement: u64,
    pub drawn_declared: u64,
}

impl UserStats {
    pub open spec fn zero() -> UserStats {
        UserStats {
            moves_made: 0,
            pieces_captured: 0,
            checks_given: 0,
            won_checkmate: 0,
            won_default: 0,
            lost_checkmate: 0,
            lost_resigned: 0,
            drawn_stalemate: 0,
            drawn_agreement: 0,
            drawn_declared: 0,
        }
    }

    /// The counters after one completed move: moves always, captures and
    /// checks as the move warranted.
    pub open spec fn after_move(self, capture: bool, check: bool) -> UserStats {
        UserStats {
            moves_made: sat_inc(self.moves_made),
            pieces_captured: if capture {
                sat_inc(self.pieces_captured)
            } else {
                self.pieces_captured
            },
            checks_given: if check {
                sat_inc(self.checks_given)
            } else {
                self.checks_given
            },
            ..self
        }
    }

    /// The counters of the white player after the game ended with `o`.
    pub open spec fn after_outcome_as_white(self, o: Outcome) -> UserStats {
        match o {
            Outcome::WhiteCheckmates => UserStats {
                won_checkmate: sat_inc(self.won_checkmate),
                ..self
            },
            Outcome::BlackResigns => UserStats { won_default: sat_inc(self.won_default), ..self },
            Outcome::BlackCheckmates => UserStats {
                lost_checkmate: sat_inc(self.lost_checkmate),
                ..self
            },
            Outcome::WhiteResigns => UserStats {
                lost_resigned: sat_inc(self.lost_resigned),
                ..self
            },
            Outcome::Stalemate => UserStats {
                drawn_stalemate: sat_inc(self.drawn_stalemate),
                ..self
            },
            Outcome::DrawAccepted => UserStats {
                drawn_agreement: sat_inc(self.drawn_agreement),
                ..self
            },
            Outcome::DrawDeclared => UserStats {
                drawn_declared: sat_inc(self.drawn_declared),
                ..self
            },
        }
    }

    /// The counters of the black player after the game ended with `o`.
    pub open spec fn after_outcome_as_black(self, o: Outcome) -> UserStats {
        match o {
            Outcome::WhiteCheckmates => UserStats {
                lost_checkmate: sat_inc(self.lost_checkmate),
                ..self
            },
            Outcome::BlackResigns => UserStats {
                lost_resigned: sat_inc(self.lost_resigned),
                ..self
            },
            Outcome::BlackCheckmates => UserStats {
                won_checkmate: sat_inc(self.won_checkmate),
                ..self
            },
            Outcome::WhiteResigns => UserStats { won_default: sat_inc(self.won_default), ..self },
            Outcome::Stalemate => UserStats {
                drawn_stalemate: sat_inc(self.drawn_stalemate),
                ..self
            },
            Outcome::DrawAccepted => UserStats {
                drawn_agreement: sat_inc(self.drawn_agreement),
                ..self
            },
            Outcome::DrawDeclared => UserStats {
                drawn_declared: sat_inc(self.drawn_declared),
                ..self
            },
        }
    }

    /// Every game this user finished, however it ended.
    pub open spec fn spec_total_games(self) -> u64 {
        sat_add(
            sat_add(
                sat_add(self.won_checkmate, self.won_default),
                sat_add(self.lost_checkmate, self.lost_resigned),
            ),
            sat_add(sat_add(self.drawn_stalemate, self.drawn_agreement), self.drawn_declared),
        )
    }

    pub open spec fn spec_total_won(self) -> u64 {
        sat_add(self.won_checkmate, self.won_default)
    }

    pub open spec fn spec_total_lost(self) -> u64 {
        sat_add(self.lost_checkmate, self.lost_resigned)
    }

    pub open spec fn spec_total_drawn(self) -> u64 {
        sat_add(sat_add(self.drawn_stalemate, self.drawn_agreement), self.drawn_declared)
    }

    /// Count of finished games, for display.
    pub fn total_games(&self) -> (r: u64)
        ensures
            r == self.spec_total_games(),
    {
        sat_add_exec(
            sat_add_exec(self.total_won(), self.total_lost()),
            self.total_drawn(),
        )
    }

    /// Count of games won, for display.
    pub fn total_won(&self) -> (r: u64)
        ensures
            r == self.spec_total_won(),
    {
        sat_add_exec(self.won_checkmate, self.won_default)
    }

    /// Count of games lost, for display.
    pub fn total_lost(&self) -> (r: u64)
        ensures
            r == self.spec_total_lost(),
    {
        sat_add_exec(self.lost_checkmate, self.lost_resigned)
    }

    /// Count of games drawn, for display.
    pub fn total_drawn(&self) -> (r: u64)
        ensures
            r == self.spec_total_drawn(),
    {
        sat_add_exec(sat_add_exec(self.drawn_stalemate, self.drawn_agreement), self.drawn_declared)
    }
}

impl Default for UserStats {
    /// A fresh record: every counter at zero.
    fn default() -> (r: UserStats)
        ensures
            r == UserStats::zero(),
    {
        UserStats {
            moves_made: 0,
            pieces_captured: 0,
            checks_given: 0,
            won_checkmate: 0,
            won_default: 0,
            lost_checkmate: 0,
            lost_resigned: 0,
            drawn_stalemate: 0,
            drawn_agreement: 0,
            drawn_declared: 0,
        }
    }
}

/// Saturating addition on counters.
pub fn sat_add_exec(a: u64, b: u64) -> (r: u64)
    ensures
        r == sat_add(a, b),
{
    let wide: u128 = a as u128 + b as u128;
    if wide > u64::MAX as u128 {
        u64::MAX
    } else {
        wide as u64
    }
}

fn sat_inc_exec(n: u64) -> (r: u64)
    ensures
        r == sat_inc(n),
{
    if n < u64::MAX {
        n + 1
    } else {
        n
    }
}

/// The record a user would show: theirs if present, a zero record else.
pub open spec fn entry_or_zero(m: Map<u64, UserStats>, user: u64) -> UserStats {
    if m.contains_key(user) {
        m[user]
    } else {
        UserStats::zero()
    }
}

/// Both players' records after the game ended with `o`; the white
/// player's record is committed first, so a user playing both sides is
/// credited twice.
pub open spec fn committed(
    m: Map<u64, UserStats>,
    white: u64,
    black: u64,
    o: Outcome,
) -> Map<u64, UserStats> {
    let after_white = m.insert(white, entry_or_zero(m, white).after_outcome_as_white(o));
    after_white.insert(black, entry_or_zero(after_white, black).after_outcome_as_black(o))
}

/// Per-user counters, one record per user id, created on demand and never
/// reset.
pub struct StatsAggregator {
    pub users: HashMap<u64, UserStats>,
}

impl View for StatsAggregator {
    type V = Map<u64, UserStats>;

    open spec fn view(&self) -> Map<u64, UserStats> {
        self.users@
    }
}

impl StatsAggregator {
    pub fn new() -> (r: StatsAggregator)
        ensures
            r@ == Map::<u64, UserStats>::empty(),
    {
        StatsAggregator { users: HashMap::new() }
    }

    /// The user's current record, a zero record if none exists yet.
    pub fn snapshot(&self, user: u64) -> (r: UserStats)
        ensures
            r == entry_or_zero(self@, user),
    {
        match self.users.get(&user) {
            Some(s) => *s,
            None => UserStats::default(),
        }
    }

    /// Credit one completed move to `user`.
    pub fn record_move(&mut self, user: u64, capture: bool, check: bool)
        ensures
            final(self)@ == old(self)@.insert(
                user,
                entry_or_zero(old(self)@, user).after_move(capture, check),
            ),
    {
        let mut s = match self.users.remove(&user) {
            Some(s) => s,
            None => UserStats::default(),
        };
        s.moves_made = sat_inc_exec(s.moves_made);
        if capture {
            s.pieces_captured = sat_inc_exec(s.pieces_captured);
        }
        if check {
            s.checks_given = sat_inc_exec(s.checks_given);
        }
        self.users.insert(user, s);
        proof {
            assert(final(self)@ =~= old(self)@.insert(
                user,
                entry_or_zero(old(self)@, user).after_move(capture, check),
            ));
        }
    }

    /// Commit a terminal outcome to both players' records.
    pub fn record_outcome(&mut self, white: u64, black: u64, o: Outcome)
        ensures
            final(self)@ == committed(old(self)@, white, black, o),
    {
        let mut w = match self.users.remove(&white) {
            Some(s) => s,
            None => UserStats::default(),
        };
        w = apply_white(w, o);
        self.users.insert(white, w);
        let mut b = match self.users.remove(&black) {
            Some(s) => s,
            None => UserStats::default(),
        };
        b = apply_black(b, o);
        self.users.insert(black, b);
        proof {
            assert(final(self)@ =~= committed(old(self)@, white, black, o));
        }
    }
}

fn apply_white(s: UserStats, o: Outcome) -> (r: UserStats)
    ensures
        r == s.after_outcome_as_white(o),
{
    let mut r = s;
    match o {
        Outcome::WhiteCheckmates => r.won_checkmate = sat_inc_exec(r.won_checkmate),
        Outcome::BlackResigns => r.won_default = sat_inc_exec(r.won_default),
        Outcome::BlackCheckmates => r.lost_checkmate = sat_inc_exec(r.lost_checkmate),
        Outcome::WhiteResigns => r.lost_resigned = sat_inc_exec(r.lost_resigned),
        Outcome::Stalemate => r.drawn_stalemate = sat_inc_exec(r.drawn_stalemate),
        Outcome::DrawAccepted => r.drawn_agreement = sat_inc_exec(r.drawn_agreement),
        Outcome::DrawDeclared => r.drawn_declared = sat_inc_exec(r.drawn_declared),
    }
    r
}

fn apply_black(s: UserStats, o: Outcome) -> (r: UserStats)
    ensures
        r == s.after_outcome_as_black(o),
{
    let mut r = s;
    match o {
        Outcome::WhiteCheckmates => r.lost_checkmate = sat_inc_exec(r.lost_checkmate),
        Outcome::BlackResigns => r.lost_resigned = sat_inc_exec(r.lost_resigned),
        Outcome::BlackCheckmates => r.won_checkmate = sat_inc_exec(r.won_checkmate),
        Outcome::WhiteResigns => r.won_default = sat_inc_exec(r.won_default),
        Outcome::Stalemate => r.drawn_stalemate = sat_inc_exec(r.drawn_stalemate),
        Outcome::DrawAccepted => r.drawn_agreement = sat_inc_exec(r.drawn_agreement),
        Outcome::DrawDeclared => r.drawn_declared = sat_inc_exec(r.drawn_declared),
    }
    r
}

/// A game drawn by agreement is counted once as an agreed draw for each
/// player, and moves no other counter of either.
pub proof fn lemma_agreed_draw_counters(m: Map<u64, UserStats>, white: u64, black: u64)
    requires
        white != black,
    ensures
        ({
            let after = committed(m, white, black, Outcome::DrawAccepted);
            let w0 = entry_or_zero(m, white);
            let b0 = entry_or_zero(m, black);
            &&& after.contains_key(white) && after.contains_key(black)
            &&& after[white] == UserStats {
                drawn_agreement: sat_inc(w0.drawn_agreement),
                ..w0
            }
            &&& after[black] == UserStats {
                drawn_agreement: sat_inc(b0.drawn_agreement),
                ..b0
            }
        }),
{
}

/// A game ending in checkmate is counted once as a win by checkmate for
/// the winner and once as a loss by checkmate for the loser, and moves no
/// other counter of either player.
pub proof fn lemma_checkmate_counters(
    m: Map<u64, UserStats>,
    white: u64,
    black: u64,
    o: Outcome,
)
    requires
        white != black,
        o == Outcome::WhiteCheckmates || o == Outcome::BlackCheckmates,
    ensures
        ({
            let after = committed(m, white, black, o);
            let w0 = entry_or_zero(m, white);
            let b0 = entry_or_zero(m, black);
            let w1 = after[white];
            let b1 = after[black];
            let winner_old = if o == Outcome::WhiteCheckmates {
                w0
            } else {
                b0
            };
            let winner_new = if o == Outcome::WhiteCheckmates {
                w1
            } else {
                b1
            };
            let loser_old = if o == Outcome::WhiteCheckmates {
                b0
            } else {
                w0
            };
            let loser_new = if o == Outcome::WhiteCheckmates {
                b1
            } else {
                w1
            };
            &&& after.contains_key(white) && after.contains_key(black)
            &&& winner_new == UserStats {
                won_checkmate: sat_inc(winner_old.won_checkmate),
                ..winner_old
            }
            &&& loser_new == UserStats {
                lost_checkmate: sat_inc(loser_old.lost_checkmate),
                ..loser_old
            }
        }),
{
}

} // verus!
