//! The boundary to the external chess rules engine and to the random
//! source.  Every function here is trusted: its contract states no more
//! than the called crate's source shows, and all game knowledge stays
//! opaque — the session machine is verified for every value these calls
//! can hand back.

use vstd::prelude::*;
use crate::events::Outcome;
use crate::events::Side;

verus! {

#[verifier::external_type_specification]
#[verifier::external_body]
pub struct ExGame(chess::Game);

#[verifier::external_type_specification]
#[verifier::external_body]
pub struct ExBoard(chess::Board);

#[verifier::external_type_specification]
#[verifier::external_body]
pub struct ExChessMove(chess::ChessMove);

#[verifier::external_type_specification]
#[verifier::external_body]
pub struct ExBitBoard(chess::BitBoard);

/// Relies on chess::Game::new: a game at the standard starting
/// position with no actions taken.
#[verifier::external_body]
pub(crate) fn engine_new_game() -> chess::Game {
    chess::Game::new()
}

/// Relies on chess::Game::side_to_move: whose turn the position says
/// it is.
#[verifier::external_body]
pub(crate) fn engine_side_to_move(g: &chess::Game) -> Side {
    match g.side_to_move() {
        chess::Color::White => Side::White,
        chess::Color::Black => Side::Black,
    }
}

/// Relies on chess::Game::current_position: the board after all moves
/// made so far.
#[verifier::external_body]
pub(crate) fn engine_current_position(g: &chess::Game) -> chess::Board {
    g.current_position()
}

/// Relies on chess::ChessMove::from_san: parses standard algebraic
/// notation against a position and picks the one legal move it
/// describes.  That crate reports every failure — unparsable text, no
/// legal match, more than one match — as the same error value, so only
/// success or failure crosses this boundary.
#[verifier::external_body]
pub(crate) fn engine_parse_san(board: &chess::Board, text: &str) -> Option<chess::ChessMove> {
    chess::ChessMove::from_san(board, text).ok()
}

/// Relies on chess::Game::make_move: applies a legal move; when it
/// returns false (illegal move or finished game) it has pushed no
/// action, so the game is unchanged.
#[verifier::external_body]
pub(crate) fn engine_make_move(g: &mut chess::Game, m: chess::ChessMove) -> (r: bool)
    ensures
        !r ==> *final(g) == *old(g),
{
    g.make_move(m)
}

/// Relies on chess::Game::result: the verdict of a finished game, or
/// nothing while it runs.
#[verifier::external_body]
pub(crate) fn engine_result(g: &chess::Game) -> Option<Outcome> {
    match g.result() {
        None => None,
        Some(chess::GameResult::WhiteCheckmates) => Some(Outcome::WhiteCheckmates),
        Some(chess::GameResult::BlackCheckmates) => Some(Outcome::BlackCheckmates),
        Some(chess::GameResult::WhiteResigns) => Some(Outcome::WhiteResigns),
        Some(chess::GameResult::BlackResigns) => Some(Outcome::BlackResigns),
        Some(chess::GameResult::Stalemate) => Some(Outcome::Stalemate),
        Some(chess::GameResult::DrawAccepted) => Some(Outcome::DrawAccepted),
        Some(chess::GameResult::DrawDeclared) => Some(Outcome::DrawDeclared),
    }
}

/// Relies on chess::Game::resign: records the side's resignation; when
/// it returns false (game already decided) the game is unchanged.
#[verifier::external_body]
pub(crate) fn engine_resign(g: &mut chess::Game, s: Side) -> (r: bool)
    ensures
        !r ==> *final(g) == *old(g),
{
    g.resign(match s {
        Side::White => chess::Color::White,
        Side::Black => chess::Color::Black,
    })
}

/// Relies on chess::Game::can_declare_draw: whether the position allows
/// a unilateral draw claim by threefold repetition or the fifty-move
/// rule.
#[verifier::external_body]
pub(crate) fn engine_can_declare_draw(g: &chess::Game) -> bool {
    g.can_declare_draw()
}

/// Relies on chess::Game::declare_draw: claims such a draw; when it
/// returns false (no claim available) the game is unchanged.
#[verifier::external_body]
pub(crate) fn engine_declare_draw(g: &mut chess::Game) -> (r: bool)
    ensures
        !r ==> *final(g) == *old(g),
{
    g.declare_draw()
}

/// Relies on chess::Game::offer_draw: records the side's standing draw
/// offer; when it returns false (game already decided) the game is
/// unchanged.
#[verifier::external_body]
pub(crate) fn engine_offer_draw(g: &mut chess::Game, s: Side) -> (r: bool)
    ensures
        !r ==> *final(g) == *old(g),
{
    g.offer_draw(match s {
        Side::White => chess::Color::White,
        Side::Black => chess::Color::Black,
    })
}

/// Relies on chess::Game::accept_draw: accepts the opponent's recent
/// offer; when it returns false (no acceptable offer) the game is
/// unchanged.
#[verifier::external_body]
pub(crate) fn engine_accept_draw(g: &mut chess::Game) -> (r: bool)
    ensures
        !r ==> *final(g) == *old(g),
{
    g.accept_draw()
}

/// Relies on chess::Board::checkers: the pieces currently giving check
/// to the side to move.
#[verifier::external_body]
pub(crate) fn board_checkers(b: &chess::Board) -> chess::BitBoard {
    *b.checkers()
}

/// Relies on chess::BitBoard::popcnt: how many squares the board has
/// set.
#[verifier::external_body]
pub(crate) fn bitboard_popcnt(bb: &chess::BitBoard) -> u32 {
    bb.popcnt()
}

/// Relies on rand::random: an unpredictable coin toss; nothing can be
/// promised of its value.
#[verifier::external_body]
pub(crate) fn coin_flip() -> bool {
    rand::random::<bool>()
}

} // verus!
