//! Plain value types exchanged between the session state machine, the
//! statistics aggregator and the command layer.

use vstd::prelude::*;

verus! {

/// A player's colour.
#[derive(Clone, Copy, Debug, PartialEq, Eq, Structural)]
pub enum Side {
    White,
    Black,
}

impl Side {
    /// The opposing colour.
    pub open spec fn spec_other(self) -> Side {
        match self {
            Side::White => Side::Black,
            Side::Black => Side::White,
        }
    }

    #[verifier::when_used_as_spec(spec_other)]
    pub fn other(self) -> (r: Side)
        ensures
            r == self.spec_other(),
    {
        match self {
            Side::White => Side::Black,
            Side::Black => Side::White,
        }
    }
}

/// Lifecycle of a channel's session slot.
#[derive(Clone, Copy, Debug, PartialEq, Eq, Structural)]
pub enum SessionState {
    /// No session, or a concluded one eligible to be replaced.
    Inactive,
    /// A challenge was issued and awaits the challenged side.
    Requested,
    /// Moves are accepted from the side to move.
    Running,
}

/// Terminal verdict reported by the rules engine for a finished game.
#[derive(Clone, Copy, Debug, PartialEq, Eq, Structural)]
pub enum Outcome {
    WhiteCheckmates,
    BlackCheckmates,
    WhiteResigns,
    BlackResigns,
    Stalemate,
    DrawAccepted,
    DrawDeclared,
}

/// Why a transition was refused: wrong actor or wrong state.
/// The session is left unmodified in every such case.
#[derive(Clone, Copy, Debug, PartialEq, Eq, Structural)]
pub enum Refusal {
    /// `start` was asked of a channel whose session is not inactive.
    AlreadyInProgress,
    /// `accept`, `decline` or `cancel` outside the requested state.
    NotRequested,
    /// The acting user is not the one this transition belongs to.
    WrongActor,
    /// A move, resignation or draw request outside the running state.
    NotRunning,
    /// A move by a player whose turn it is not.
    NotYourTurn,
    /// An action by a user who plays neither side.
    NotParticipant,
}

/// How a submitted move's notation failed.  The session is left
/// unmodified in every such case.
#[derive(Clone, Copy, Debug, PartialEq, Eq, Structural)]
pub enum NotationError {
    /// The text is not shaped like a move at all.
    IllFormed,
    /// The engine found no legal move matching the text.
    Illegal,
    /// The engine could not single out one matching move.
    Ambiguous,
}

/// Why `submit_move` did not apply a move.
#[derive(Clone, Copy, Debug, PartialEq, Eq, Structural)]
pub enum SubmitError {
    Refused(Refusal),
    Notation(NotationError),
}

/// Why a command was answered with a refusal instead of an action.
#[derive(Clone, Copy, Debug, PartialEq, Eq, Structural)]
pub enum CommandError {
    /// The permission gate resolved to false or to nothing.
    PermissionDenied,
    /// The command refers to a channel that has no session slot.
    NoSession,
    /// The opponent argument does not name a user.
    BadMention,
    /// The session refused the transition.
    Refused(Refusal),
    /// The move's notation failed.
    Notation(NotationError),
}

/// What a successful move did, for rendering and announcements.
#[derive(Clone, Copy, Debug, PartialEq, Eq)]
pub struct MoveReport {
    /// The move's text marked it as a capture.
    pub capture: bool,
    /// The move left the opponent in check.
    pub check: bool,
    /// The verdict the engine reported afterwards, if the game ended.
    pub outcome: Option<Outcome>,
}

/// What a draw request by a participant amounted to.
#[derive(Clone, Copy, Debug, PartialEq, Eq)]
pub enum DrawEvent {
    /// The actor's side could claim a draw unilaterally and did.
    Claimed(Option<Outcome>),
    /// The other side's pending offer was accepted.
    Accepted(Option<Outcome>),
    /// A new offer was recorded; nothing else changed.
    Offered,
}

} // verus!
