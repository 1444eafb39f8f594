//! The per-channel game session: a three-state machine around an opaque
//! rules-engine position.  Every illegal transition is a descriptive
//! refusal that leaves the session untouched; every applied transition
//! states exactly which fields moved and how the statistics were
//! committed, conditioned only on what the engine reported.

use vstd::prelude::*;
use crate::engine::bitboard_popcnt;
use crate::engine::board_checkers;
use crate::engine::coin_flip;
use crate::engine::engine_accept_draw;
use crate::engine::engine_can_declare_draw;
use crate::engine::engine_current_position;
use crate::engine::engine_declare_draw;
use crate::engine::engine_make_move;
use crate::engine::engine_new_game;
use crate::engine::engine_offer_draw;
use crate::engine::engine_parse_san;
use crate::engine::engine_resign;
use crate::engine::engine_result;
use crate::engine::engine_side_to_move;
use crate::events::DrawEvent;
use crate::events::MoveReport;
use crate::events::NotationError;
use crate::events::Outcome;
use crate::events::Refusal;
use crate::events::SessionState;
use crate::events::Side;
use crate::events::SubmitError;
use crate::stats::committed;
use crate::stats::entry_or_zero;
use crate::stats::StatsAggregator;
use crate::stats::UserStats;
use crate::text::has_capture_marker;
use crate::text::is_san_shaped;
use crate::text::marks_capture;
use crate::text::san_shaped;

verus! {

/// How long previously rendered board ids are kept, per the guild's
/// `deleteOld` setting.
#[derive(Clone, Copy, Debug, PartialEq, Eq, Structural)]
pub enum RetentionPolicy {
    /// Keep one id; delete the previous board when the next is posted.
    OnNext,
    /// Keep up to a hundred ids, deleting the oldest when full.
    OnEnd,
    /// Same retention as `OnEnd`.
    OnRequest,
    /// Keep every id, delete nothing.
    Off,
}

/// The render-history queue after noting `sent`, and the id to delete,
/// under the given policy.
pub open spec fn retained(boards: Seq<u64>, sent: u64, p: RetentionPolicy) -> (Seq<u64>, Option<
    u64,
>) {
    match p {
        RetentionPolicy::OnNext => if boards.len() > 0 {
            (boards.subrange(1, boards.len() as int).push(sent), Some(boards[0]))
        } else {
            (boards.push(sent), None)
        },
        RetentionPolicy::OnEnd | RetentionPolicy::OnRequest => if boards.len() >= 100 {
            (boards.subrange(1, boards.len() as int).push(sent), Some(boards[0]))
        } else {
            (boards.push(sent), None)
        },
        RetentionPolicy::Off => (boards.push(sent), None),
    }
}

/// Everything `submit_move` promises, relating the session and the
/// statistics before and after the call to its result.  A refusal or a
/// notation error changes nothing; which of them comes back is fixed by
/// the state, the acting user and the text's shape, except that the
/// engine's parser decides between an applied move and `Illegal`.
pub open spec fn submit_move_post(
    pre: ChannelGame,
    post: ChannelGame,
    spre: Map<u64, UserStats>,
    spost: Map<u64, UserStats>,
    actor: u64,
    text: Seq<char>,
    r: Result<MoveReport, SubmitError>,
) -> bool {
    &&& (r is Err ==> post == pre && spost == spre)
    &&& (pre.state != SessionState::Running ==> r == Err::<MoveReport, SubmitError>(
        SubmitError::Refused(Refusal::NotRunning),
    ))
    &&& (pre.state == SessionState::Running && actor != pre.user_of(pre.to_move) ==> r == Err::<
        MoveReport,
        SubmitError,
    >(SubmitError::Refused(Refusal::NotYourTurn)))
    &&& (pre.state == SessionState::Running && actor == pre.user_of(pre.to_move) && !san_shaped(
        text,
    ) ==> r == Err::<MoveReport, SubmitError>(SubmitError::Notation(NotationError::IllFormed)))
    &&& (pre.state == SessionState::Running && actor == pre.user_of(pre.to_move) && san_shaped(
        text,
    ) ==> (r is Ok || r == Err::<MoveReport, SubmitError>(
        SubmitError::Notation(NotationError::Illegal),
    )))
    &&& (r matches Ok(rep) ==> {
        let moved = spre.insert(actor, entry_or_zero(spre, actor).after_move(rep.capture, rep.check));
        &&& pre.state == SessionState::Running
        &&& actor == pre.user_of(pre.to_move)
        &&& san_shaped(text)
        &&& rep.capture == has_capture_marker(text)
        &&& post.draw_offer is None
        &&& post.last_move is Some
        &&& post.white == pre.white
        &&& post.black == pre.black
        &&& post.initiator == pre.initiator
        &&& post.old_boards == pre.old_boards
        &&& post.state == (match rep.outcome {
            Some(_) => SessionState::Inactive,
            None => SessionState::Running,
        })
        &&& spost == (match rep.outcome {
            None => moved,
            Some(o) => committed(moved, pre.white, pre.black, o),
        })
    })
}

/// Everything `resign` promises: only a participant of a running game
/// may resign, the outcome the engine then reports is committed to both
/// players' counters no later than the flip to Inactive, and nothing
/// else of the session moves.
pub open spec fn resign_post(
    pre: ChannelGame,
    post: ChannelGame,
    spre: Map<u64, UserStats>,
    spost: Map<u64, UserStats>,
    actor: u64,
    r: Result<Option<Outcome>, Refusal>,
) -> bool {
    &&& (r is Err ==> post == pre && spost == spre)
    &&& (pre.state != SessionState::Running ==> r == Err::<Option<Outcome>, Refusal>(
        Refusal::NotRunning,
    ))
    &&& (pre.state == SessionState::Running && !pre.is_participant(actor) ==> r == Err::<
        Option<Outcome>,
        Refusal,
    >(Refusal::NotParticipant))
    &&& (pre.state == SessionState::Running && pre.is_participant(actor) ==> r is Ok)
    &&& (r matches Ok(out) ==> {
        &&& post.white == pre.white
        &&& post.black == pre.black
        &&& post.initiator == pre.initiator
        &&& post.to_move == pre.to_move
        &&& post.last_move == pre.last_move
        &&& post.draw_offer == pre.draw_offer
        &&& post.old_boards == pre.old_boards
        &&& post.state == (match out {
            Some(_) => SessionState::Inactive,
            None => pre.state,
        })
        &&& spost == (match out {
            Some(o) => committed(spre, pre.white, pre.black, o),
            None => spre,
        })
    })
}

/// Everything `offer_or_resolve_draw` promises.  `Offered` records the
/// actor's offer and changes nothing else — in particular the state
/// stays Running and no statistics move.  A claim happens only on the
/// actor's turn; an acceptance only against the other side's pending
/// offer; in both cases the outcome the engine reports is committed as
/// on any other terminal transition.
pub open spec fn draw_post(
    pre: ChannelGame,
    post: ChannelGame,
    spre: Map<u64, UserStats>,
    spost: Map<u64, UserStats>,
    actor: u64,
    r: Result<DrawEvent, Refusal>,
) -> bool {
    &&& (r is Err ==> post == pre && spost == spre)
    &&& (pre.state != SessionState::Running ==> r == Err::<DrawEvent, Refusal>(
        Refusal::NotRunning,
    ))
    &&& (pre.state == SessionState::Running && !pre.is_participant(actor) ==> r == Err::<
        DrawEvent,
        Refusal,
    >(Refusal::NotParticipant))
    &&& (pre.state == SessionState::Running && pre.is_participant(actor) ==> r is Ok)
    &&& (r == Ok::<DrawEvent, Refusal>(DrawEvent::Offered) ==> {
        &&& pre.draw_offer != Some(pre.side_of(actor).spec_other())
        &&& post.draw_offer == Some(pre.side_of(actor))
        &&& post.state == SessionState::Running
        &&& post.white == pre.white
        &&& post.black == pre.black
        &&& post.initiator == pre.initiator
        &&& post.to_move == pre.to_move
        &&& post.last_move == pre.last_move
        &&& post.old_boards == pre.old_boards
        &&& spost == spre
    })
    &&& (r is Ok && !(r->Ok_0 is Offered) ==> {
        let ev = r->Ok_0;
        let out = match ev {
            DrawEvent::Claimed(out) => out,
            DrawEvent::Accepted(out) => out,
            DrawEvent::Offered => None,
        };
        &&& (ev is Claimed ==> pre.to_move == pre.side_of(actor))
        &&& (ev is Accepted ==> pre.draw_offer == Some(pre.side_of(actor).spec_other()))
        &&& post.white == pre.white
        &&& post.black == pre.black
        &&& post.initiator == pre.initiator
        &&& post.to_move == pre.to_move
        &&& post.last_move == pre.last_move
        &&& post.draw_offer == pre.draw_offer
        &&& post.old_boards == pre.old_boards
        &&& post.state == (match out {
            Some(_) => SessionState::Inactive,
            None => pre.state,
        })
        &&& spost == (match out {
            Some(o) => committed(spre, pre.white, pre.black, o),
            None => spre,
        })
    })
}

/// One channel's session slot.
pub struct ChannelGame {
    /// The rules engine's game, opaque to everything verified here.
    pub game: chess::Game,
    pub state: SessionState,
    pub white: u64,
    pub black: u64,
    /// Which colour the challenge's initiator plays.
    pub initiator: Side,
    /// Mirror of the engine's side to move, refreshed after every
    /// applied move.
    pub to_move: Side,
    pub last_move: Option<chess::ChessMove>,
    /// Which side has a draw offer pending, if any.
    pub draw_offer: Option<Side>,
    /// Previously rendered board message ids, oldest first.
    pub old_boards: Vec<u64>,
}

impl ChannelGame {
    /// The user playing the given colour.
    pub open spec fn user_of(self, s: Side) -> u64 {
        match s {
            Side::White => self.white,
            Side::Black => self.black,
        }
    }

    pub open spec fn spec_initiator_id(self) -> u64 {
        self.user_of(self.initiator)
    }

    pub open spec fn spec_other_id(self) -> u64 {
        self.user_of(self.initiator.spec_other())
    }

    pub open spec fn is_participant(self, uid: u64) -> bool {
        uid == self.white || uid == self.black
    }

    /// The colour a participant plays; a user playing both sides
    /// counts as white.
    pub open spec fn side_of(self, uid: u64) -> Side {
        if uid == self.white {
            Side::White
        } else {
            Side::Black
        }
    }

    /// An empty slot: no players, nothing recorded.
    pub fn new() -> (r: ChannelGame)
        ensures
            r.state == SessionState::Inactive,
            r.white == 0 && r.black == 0,
            r.initiator == Side::White,
            r.last_move is None,
            r.draw_offer is None,
            r.old_boards@ == Seq::<u64>::empty(),
    {
        let game = engine_new_game();
        let to_move = engine_side_to_move(&game);
        ChannelGame {
            game,
            state: SessionState::Inactive,
            white: 0,
            black: 0,
            initiator: Side::White,
            to_move,
            last_move: None,
            draw_offer: None,
            old_boards: Vec::new(),
        }
    }

    /// The user who issued the challenge.
    pub fn get_initiator(&self) -> (r: u64)
        ensures
            r == self.spec_initiator_id(),
    {
        match self.initiator {
            Side::White => self.white,
            Side::Black => self.black,
        }
    }

    /// The challenged user.
    pub fn get_other(&self) -> (r: u64)
        ensures
            r == self.spec_other_id(),
    {
        match self.initiator {
            Side::White => self.black,
            Side::Black => self.white,
        }
    }

    /// Issue a challenge: only an inactive slot accepts one.  Sides are
    /// assigned by coin toss; every prior field of the slot is replaced.
    pub fn start(&mut self, initiator: u64, opponent: u64) -> (r: Result<Side, Refusal>)
        ensures
            old(self).state != SessionState::Inactive ==> r == Err::<Side, Refusal>(
                Refusal::AlreadyInProgress,
            ) && *final(self) == *old(self),
            old(self).state == SessionState::Inactive ==> {
                &&& r is Ok
                &&& final(self).state == SessionState::Requested
                &&& final(self).initiator == r->Ok_0
                &&& final(self).user_of(r->Ok_0) == initiator
                &&& final(self).user_of(r->Ok_0.spec_other()) == opponent
                &&& final(self).draw_offer is None
                &&& final(self).last_move is None
                &&& final(self).old_boards@ == Seq::<u64>::empty()
            },
    {
        if !matches!(self.state, SessionState::Inactive) {
            return Err(Refusal::AlreadyInProgress);
        }
        let initiator_is_white = coin_flip();
        let game = engine_new_game();
        let to_move = engine_side_to_move(&game);
        let side = if initiator_is_white {
            Side::White
        } else {
            Side::Black
        };
        *self = ChannelGame {
            game,
            state: SessionState::Requested,
            white: if initiator_is_white {
                initiator
            } else {
                opponent
            },
            black: if initiator_is_white {
                opponent
            } else {
                initiator
            },
            initiator: side,
            to_move,
            last_move: None,
            draw_offer: None,
            old_boards: Vec::new(),
        };
        Ok(side)
    }

    /// The challenged side takes the game: Requested becomes Running.
    pub fn accept(&mut self, actor: u64) -> (r: Result<(), Refusal>)
        ensures
            old(self).state != SessionState::Requested ==> r == Err::<(), Refusal>(
                Refusal::NotRequested,
            ) && *final(self) == *old(self),
            old(self).state == SessionState::Requested && actor != old(self).spec_other_id()
                ==> r == Err::<(), Refusal>(Refusal::WrongActor) && *final(self) == *old(self),
            old(self).state == SessionState::Requested && actor == old(self).spec_other_id()
                ==> r is Ok && *final(self) == (ChannelGame {
                state: SessionState::Running,
                ..*old(self)
            }),
    {
        if !matches!(self.state, SessionState::Requested) {
            return Err(Refusal::NotRequested);
        }
        if actor != self.get_other() {
            return Err(Refusal::WrongActor);
        }
        self.state = SessionState::Running;
        Ok(())
    }

    /// The challenged side turns the game down: Requested becomes
    /// Inactive.
    pub fn decline(&mut self, actor: u64) -> (r: Result<(), Refusal>)
        ensures
            old(self).state != SessionState::Requested ==> r == Err::<(), Refusal>(
                Refusal::NotRequested,
            ) && *final(self) == *old(self),
            old(self).state == SessionState::Requested && actor != old(self).spec_other_id()
                ==> r == Err::<(), Refusal>(Refusal::WrongActor) && *final(self) == *old(self),
            old(self).state == SessionState::Requested && actor == old(self).spec_other_id()
                ==> r is Ok && *final(self) == (ChannelGame {
                state: SessionState::Inactive,
                ..*old(self)
            }),
    {
        if !matches!(self.state, SessionState::Requested) {
            return Err(Refusal::NotRequested);
        }
        if actor != self.get_other() {
            return Err(Refusal::WrongActor);
        }
        self.state = SessionState::Inactive;
        Ok(())
    }

    /// The initiator withdraws the challenge: Requested becomes
    /// Inactive.
    pub fn cancel(&mut self, actor: u64) -> (r: Result<(), Refusal>)
        ensures
            old(self).state != SessionState::Requested ==> r == Err::<(), Refusal>(
                Refusal::NotRequested,
            ) && *final(self) == *old(self),
            old(self).state == SessionState::Requested && actor != old(self).spec_initiator_id()
                ==> r == Err::<(), Refusal>(Refusal::WrongActor) && *final(self) == *old(self),
            old(self).state == SessionState::Requested && actor == old(self).spec_initiator_id()
                ==> r is Ok && *final(self) == (ChannelGame {
                state: SessionState::Inactive,
                ..*old(self)
            }),
    {
        if !matches!(self.state, SessionState::Requested) {
            return Err(Refusal::NotRequested);
        }
        if actor != self.get_initiator() {
            return Err(Refusal::WrongActor);
        }
        self.state = SessionState::Inactive;
        Ok(())
    }

    /// A board may be rendered whenever the session is not a pending
    /// challenge.
    pub fn can_render(&self) -> (r: bool)
        ensures
            r == (self.state != SessionState::Requested),
    {
        !matches!(self.state, SessionState::Requested)
    }

    /// Note a freshly rendered board id and say which old one to
    /// delete, per the retention policy.
    pub fn note_render(&mut self, sent: u64, policy: RetentionPolicy) -> (deleted: Option<u64>)
        ensures
            final(self).old_boards@ == retained(old(self).old_boards@, sent, policy).0,
            deleted == retained(old(self).old_boards@, sent, policy).1,
            *final(self) == (ChannelGame { old_boards: final(self).old_boards, ..*old(self) }),
    {
        let mut deleted: Option<u64> = None;
        match policy {
            RetentionPolicy::OnNext => {
                if self.old_boards.len() > 0 {
                    deleted = Some(self.old_boards.remove(0));
                }
            },
            RetentionPolicy::OnEnd | RetentionPolicy::OnRequest => {
                if self.old_boards.len() >= 100 {
                    deleted = Some(self.old_boards.remove(0));
                }
            },
            RetentionPolicy::Off => {},
        }
        self.old_boards.push(sent);
        proof {
            assert(final(self).old_boards@ =~= retained(old(self).old_boards@, sent, policy).0);
        }
        deleted
    }

    /// Apply a move submitted by the side to move.  On success the
    /// pending draw offer is cleared, the mover's move, capture and
    /// check counters advance, and a terminal verdict from the engine
    /// flips the slot to Inactive with both players' outcome counters
    /// committed.  Every failure leaves session and statistics
    /// untouched.
    pub fn submit_move(&mut self, actor: u64, text: &str, stats: &mut StatsAggregator) -> (r:
        Result<MoveReport, SubmitError>)
        ensures
            submit_move_post(
                *old(self),
                *final(self),
                old(stats)@,
                final(stats)@,
                actor,
                text@,
                r,
            ),
    {
        if !matches!(self.state, SessionState::Running) {
            return Err(SubmitError::Refused(Refusal::NotRunning));
        }
        let mover = match self.to_move {
            Side::White => self.white,
            Side::Black => self.black,
        };
        if actor != mover {
            return Err(SubmitError::Refused(Refusal::NotYourTurn));
        }
        if !is_san_shaped(text) {
            return Err(SubmitError::Notation(NotationError::IllFormed));
        }
        let pos = engine_current_position(&self.game);
        let mv = match engine_parse_san(&pos, text) {
            Some(m) => m,
            None => {
                return Err(SubmitError::Notation(NotationError::Illegal));
            },
        };
        let applied = engine_make_move(&mut self.game, mv);
        if !applied {
            return Err(SubmitError::Notation(NotationError::Illegal));
        }
        self.last_move = Some(mv);
        self.draw_offer = None;
        self.to_move = engine_side_to_move(&self.game);
        let newpos = engine_current_position(&self.game);
        let checkers = board_checkers(&newpos);
        let check = bitboard_popcnt(&checkers) > 0;
        let capture = marks_capture(text);
        stats.record_move(actor, capture, check);
        let outcome = engine_result(&self.game);
        match outcome {
            Some(o) => {
                stats.record_outcome(self.white, self.black, o);
                self.state = SessionState::Inactive;
            },
            None => {},
        }
        Ok(MoveReport { capture, check, outcome })
    }

    /// A participant resigns their own side.  A terminal verdict from
    /// the engine flips the slot to Inactive with both players' outcome
    /// counters committed.
    pub fn resign(&mut self, actor: u64, stats: &mut StatsAggregator) -> (r: Result<
        Option<Outcome>,
        Refusal,
    >)
        ensures
            resign_post(*old(self), *final(self), old(stats)@, final(stats)@, actor, r),
    {
        if !matches!(self.state, SessionState::Running) {
            return Err(Refusal::NotRunning);
        }
        if actor != self.white && actor != self.black {
            return Err(Refusal::NotParticipant);
        }
        let side = if actor == self.white {
            Side::White
        } else {
            Side::Black
        };
        let _ = engine_resign(&mut self.game, side);
        let outcome = engine_result(&self.game);
        match outcome {
            Some(o) => {
                stats.record_outcome(self.white, self.black, o);
                self.state = SessionState::Inactive;
            },
            None => {},
        }
        Ok(outcome)
    }

    /// A participant asks for a draw.  If the engine lets the actor's
    /// side claim one outright it is claimed; else a pending offer by
    /// the other side is taken as accepted; else the actor's offer is
    /// recorded and nothing else changes.
    pub fn offer_or_resolve_draw(&mut self, actor: u64, stats: &mut StatsAggregator) -> (r: Result<
        DrawEvent,
        Refusal,
    >)
        ensures
            draw_post(*old(self), *final(self), old(stats)@, final(stats)@, actor, r),
    {
        if !matches!(self.state, SessionState::Running) {
            return Err(Refusal::NotRunning);
        }
        if actor != self.white && actor != self.black {
            return Err(Refusal::NotParticipant);
        }
        let side = if actor == self.white {
            Side::White
        } else {
            Side::Black
        };
        let my_turn = self.to_move == side;
        if my_turn && engine_can_declare_draw(&self.game) {
            let _ = engine_declare_draw(&mut self.game);
            let outcome = engine_result(&self.game);
            match outcome {
                Some(o) => {
                    stats.record_outcome(self.white, self.black, o);
                    self.state = SessionState::Inactive;
                },
                None => {},
            }
            return Ok(DrawEvent::Claimed(outcome));
        }
        let other_offered = match self.draw_offer {
            Some(s) => s == side.other(),
            None => false,
        };
        if other_offered {
            let _ = engine_accept_draw(&mut self.game);
            let outcome = engine_result(&self.game);
            match outcome {
                Some(o) => {
                    stats.record_outcome(self.white, self.black, o);
                    self.state = SessionState::Inactive;
                },
                None => {},
            }
            return Ok(DrawEvent::Accepted(outcome));
        }
        self.draw_offer = Some(side);
        let _ = engine_offer_draw(&mut self.game, side);
        Ok(DrawEvent::Offered)
    }
}

/// A pending challenge accepts no move at all: whoever submits, the
/// submission is refused as out of state and session and statistics
/// stay exactly as they were.
pub proof fn lemma_requested_rejects_moves(
    pre: ChannelGame,
    post: ChannelGame,
    spre: Map<u64, UserStats>,
    spost: Map<u64, UserStats>,
    actor: u64,
    text: Seq<char>,
    r: Result<MoveReport, SubmitError>,
)
    requires
        pre.state == SessionState::Requested,
        submit_move_post(pre, post, spre, spost, actor, text, r),
    ensures
        r == Err::<MoveReport, SubmitError>(SubmitError::Refused(Refusal::NotRunning)),
        post == pre,
        spost == spre,
{
}

/// With two distinct players the initiator is never the challenged
/// side, so a pending challenge rejects the initiator's `accept` —
/// its contract admits only the challenged user.
pub proof fn lemma_initiator_cannot_accept(pre: ChannelGame)
    requires
        pre.white != pre.black,
    ensures
        pre.spec_initiator_id() != pre.spec_other_id(),
{
}

/// In a running game only the side to move may submit: anyone else is
/// refused with session and statistics untouched, and an applied move
/// was the mover's and leaves no draw offer pending.
pub proof fn lemma_only_side_to_move_moves(
    pre: ChannelGame,
    post: ChannelGame,
    spre: Map<u64, UserStats>,
    spost: Map<u64, UserStats>,
    actor: u64,
    text: Seq<char>,
    r: Result<MoveReport, SubmitError>,
)
    requires
        pre.state == SessionState::Running,
        submit_move_post(pre, post, spre, spost, actor, text, r),
    ensures
        actor != pre.user_of(pre.to_move) ==> r == Err::<MoveReport, SubmitError>(
            SubmitError::Refused(Refusal::NotYourTurn),
        ) && post == pre && spost == spre,
        r is Ok ==> actor == pre.user_of(pre.to_move) && post.draw_offer is None,
{
}

/// A first draw request by a side that can claim nothing changes no
/// state: the session keeps running with only the offer recorded, and
/// a second request by the other side is never read as a fresh offer
/// while that offer is pending.
pub proof fn lemma_offer_then_other_side_resolves(
    pre: ChannelGame,
    post: ChannelGame,
    spre: Map<u64, UserStats>,
    spost: Map<u64, UserStats>,
    actor: u64,
    r: Result<DrawEvent, Refusal>,
)
    requires
        pre.state == SessionState::Running,
        pre.is_participant(actor),
        pre.draw_offer == Some(pre.side_of(actor).spec_other()),
        draw_post(pre, post, spre, spost, actor, r),
    ensures
        r is Ok,
        !(r->Ok_0 is Offered),
{
}

/// Under the one-deep policy the queue never outgrows one id: after
/// noting a render it holds exactly the new id, and the id deleted is
/// the previously queued one.
pub proof fn lemma_on_next_keeps_one(boards: Seq<u64>, sent: u64)
    requires
        boards.len() <= 1,
    ensures
        retained(boards, sent, RetentionPolicy::OnNext).0 =~= seq![sent],
        boards.len() == 1 ==> retained(boards, sent, RetentionPolicy::OnNext).1 == Some(boards[0]),
        boards.len() == 0 ==> retained(boards, sent, RetentionPolicy::OnNext).1 is None,
{
}

} // verus!
