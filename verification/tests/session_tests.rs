use chess_sessions::events::CommandError;
use chess_sessions::events::NotationError;
use chess_sessions::events::Outcome;
use chess_sessions::events::Refusal;
use chess_sessions::events::Side;
use chess_sessions::events::SubmitError;
use chess_sessions::service::Service;

const GUILD: u64 = 1;
const CHANNEL: u64 = 5;
const ALICE: u64 = 100;
const BOB: u64 = 200;

/// Start a challenge from Alice to Bob and say who plays white.
fn challenged() -> (Service, u64, u64) {
    let mut svc = Service::new();
    let side = svc.play(GUILD, CHANNEL, ALICE, "<@200>").expect("play should set up a game");
    let (white, black) = match side {
        Side::White => (ALICE, BOB),
        Side::Black => (BOB, ALICE),
    };
    (svc, white, black)
}

/// A running game between Alice and Bob.
fn running() -> (Service, u64, u64) {
    let (mut svc, white, black) = challenged();
    svc.accept(CHANNEL, BOB).expect("the challenged user may accept");
    (svc, white, black)
}

#[test]
fn requested_session_rejects_moves_from_both_players() {
    let (mut svc, white, black) = challenged();
    for actor in [white, black] {
        let r = svc.message_move(CHANNEL, actor, "e4").expect("slot exists");
        assert_eq!(r, Err(SubmitError::Refused(Refusal::NotRunning)));
    }
}

#[test]
fn requested_session_rejects_accept_by_initiator() {
    let (mut svc, _, _) = challenged();
    assert_eq!(svc.accept(CHANNEL, ALICE), Err(CommandError::Refused(Refusal::WrongActor)));
    // The challenged side may then still accept.
    assert_eq!(svc.accept(CHANNEL, BOB), Ok(()));
}

#[test]
fn only_side_to_move_may_submit() {
    let (mut svc, white, black) = running();
    let r = svc.message_move(CHANNEL, black, "e5").expect("slot exists");
    assert_eq!(r, Err(SubmitError::Refused(Refusal::NotYourTurn)));
    let r = svc.message_move(CHANNEL, white, "e4").expect("slot exists");
    assert!(r.is_ok());
    // After white's move it is black's turn and white is refused.
    let r = svc.message_move(CHANNEL, white, "d4").expect("slot exists");
    assert_eq!(r, Err(SubmitError::Refused(Refusal::NotYourTurn)));
    let r = svc.message_move(CHANNEL, black, "e5").expect("slot exists");
    assert!(r.is_ok());
}

#[test]
fn ill_formed_and_illegal_moves_are_told_apart() {
    let (mut svc, white, _) = running();
    let r = svc.message_move(CHANNEL, white, "hello").expect("slot exists");
    assert_eq!(r, Err(SubmitError::Notation(NotationError::IllFormed)));
    // Well shaped but impossible in the initial position.
    let r = svc.message_move(CHANNEL, white, "e6").expect("slot exists");
    assert_eq!(r, Err(SubmitError::Notation(NotationError::Illegal)));
    // The session still accepts the legal move afterwards.
    let r = svc.message_move(CHANNEL, white, "e4").expect("slot exists");
    assert!(r.is_ok());
}

#[test]
fn successful_move_clears_pending_draw_offer() {
    let (mut svc, white, black) = running();
    svc.message_move(CHANNEL, white, "e4").expect("slot").expect("legal");
    // Black offers a draw, then moves: the offer dies with the move,
    // so white's later draw request is a fresh offer, not an
    // acceptance.
    svc.draw(CHANNEL, black).expect("offer records");
    svc.message_move(CHANNEL, black, "e5").expect("slot").expect("legal");
    let ev = svc.draw(CHANNEL, white).expect("draw request works");
    assert!(matches!(ev, chess_sessions::events::DrawEvent::Offered));
    // And the game goes on.
    let r = svc.message_move(CHANNEL, white, "d4").expect("slot exists");
    assert!(r.is_ok());
}

#[test]
fn checkmate_flips_session_to_inactive_and_allows_new_game() {
    let (mut svc, white, black) = running();
    svc.message_move(CHANNEL, white, "f3").expect("slot").expect("legal");
    svc.message_move(CHANNEL, black, "e5").expect("slot").expect("legal");
    svc.message_move(CHANNEL, white, "g4").expect("slot").expect("legal");
    let rep = svc.message_move(CHANNEL, black, "Qh4").expect("slot").expect("legal");
    assert_eq!(rep.outcome, Some(Outcome::BlackCheckmates));
    assert!(rep.check);
    // The concluded channel accepts a fresh challenge (the slot is
    // fully replaced).
    let side = svc.play(GUILD, CHANNEL, BOB, "<@100>").expect("channel is free again");
    let _ = side;
    let r = svc.message_move(CHANNEL, white, "e4").expect("slot exists");
    assert_eq!(r, Err(SubmitError::Refused(Refusal::NotRunning)));
}

#[test]
fn second_challenge_in_occupied_channel_is_refused() {
    let (mut svc, _, _) = challenged();
    let r = svc.play(GUILD, CHANNEL, BOB, "<@100>");
    assert_eq!(r, Err(CommandError::Refused(Refusal::AlreadyInProgress)));
}

#[test]
fn decline_and_cancel_free_the_channel() {
    let (mut svc, _, _) = challenged();
    assert_eq!(svc.decline(CHANNEL, ALICE), Err(CommandError::Refused(Refusal::WrongActor)));
    assert_eq!(svc.decline(CHANNEL, BOB), Ok(()));
    assert!(svc.play(GUILD, CHANNEL, ALICE, "<@200>").is_ok());

    let (mut svc2, _, _) = challenged();
    assert_eq!(svc2.cancel(CHANNEL, BOB), Err(CommandError::Refused(Refusal::WrongActor)));
    assert_eq!(svc2.cancel(CHANNEL, ALICE), Ok(()));
    assert!(svc2.play(GUILD, CHANNEL, ALICE, "<@200>").is_ok());
}

#[test]
fn commands_without_a_session_say_so() {
    let mut svc = Service::new();
    assert_eq!(svc.accept(CHANNEL, BOB), Err(CommandError::NoSession));
    assert_eq!(svc.decline(CHANNEL, BOB), Err(CommandError::NoSession));
    assert_eq!(svc.cancel(CHANNEL, ALICE), Err(CommandError::NoSession));
    assert_eq!(svc.resign(CHANNEL, ALICE), Err(CommandError::NoSession));
    assert_eq!(svc.draw(CHANNEL, ALICE), Err(CommandError::NoSession));
    assert_eq!(svc.board(CHANNEL), Err(CommandError::NoSession));
    assert!(svc.message_move(CHANNEL, ALICE, "e4").is_none());
}

#[test]
fn board_is_shown_except_for_pending_challenges() {
    let (mut svc, _, _) = challenged();
    assert_eq!(svc.board(CHANNEL), Err(CommandError::Refused(Refusal::NotRequested)));
    svc.accept(CHANNEL, BOB).expect("accept");
    assert_eq!(svc.board(CHANNEL), Ok(()));
}

#[test]
fn resignation_ends_the_game_with_the_right_outcome() {
    let (mut svc, white, black) = running();
    let r = svc.resign(CHANNEL, 999);
    assert_eq!(r, Err(CommandError::Refused(Refusal::NotParticipant)));
    let out = svc.resign(CHANNEL, white).expect("participant may resign");
    assert_eq!(out, Some(Outcome::WhiteResigns));
    // The game is over; a second resignation is out of state.
    let r = svc.resign(CHANNEL, black);
    assert_eq!(r, Err(CommandError::Refused(Refusal::NotRunning)));
}

#[test]
fn new_game_starts_from_a_fresh_position() {
    let (mut svc, white, black) = running();
    svc.message_move(CHANNEL, white, "e4").expect("slot").expect("legal");
    svc.draw(CHANNEL, black).expect("offer records");
    svc.resign(CHANNEL, black).expect("resign ends it");
    // Start again: the old draw offer and move history are gone, so
    // the same first move is legal again and no offer is pending.
    let side = svc.play(GUILD, CHANNEL, ALICE, "<@200>").expect("fresh game");
    let (w2, b2) = match side {
        Side::White => (ALICE, BOB),
        Side::Black => (BOB, ALICE),
    };
    svc.accept(CHANNEL, BOB).expect("accept new game");
    svc.message_move(CHANNEL, w2, "e4").expect("slot").expect("legal again");
    // A draw request by the second player is a fresh offer, not an
    // acceptance of the stale one.
    let ev = svc.draw(CHANNEL, b2).expect("draw request works");
    assert!(matches!(ev, chess_sessions::events::DrawEvent::Offered));
}
