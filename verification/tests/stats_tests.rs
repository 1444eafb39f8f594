use chess_sessions::events::DrawEvent;
use chess_sessions::events::Outcome;
use chess_sessions::events::Side;
use chess_sessions::service::Service;
use chess_sessions::stats::sat_add_exec;
use chess_sessions::stats::StatsAggregator;
use chess_sessions::stats::UserStats;

const GUILD: u64 = 1;
const CHANNEL: u64 = 5;
const ALICE: u64 = 100;
const BOB: u64 = 200;

fn running() -> (Service, u64, u64) {
    let mut svc = Service::new();
    let side = svc.play(GUILD, CHANNEL, ALICE, "<@200>").expect("play");
    let (white, black) = match side {
        Side::White => (ALICE, BOB),
        Side::Black => (BOB, ALICE),
    };
    svc.accept(CHANNEL, BOB).expect("accept");
    (svc, white, black)
}

#[test]
fn unknown_user_shows_a_zero_record() {
    let svc = Service::new();
    assert_eq!(svc.statistics(ALICE), UserStats::default());
}

#[test]
fn checkmate_updates_exactly_the_two_outcome_counters() {
    let (mut svc, white, black) = running();
    svc.message_move(CHANNEL, white, "f3").expect("slot").expect("legal");
    svc.message_move(CHANNEL, black, "e5").expect("slot").expect("legal");
    svc.message_move(CHANNEL, white, "g4").expect("slot").expect("legal");
    let rep = svc.message_move(CHANNEL, black, "Qh4").expect("slot").expect("legal");
    assert_eq!(rep.outcome, Some(Outcome::BlackCheckmates));

    let winner = svc.statistics(black);
    assert_eq!(winner.won_checkmate, 1);
    assert_eq!(winner.lost_checkmate, 0);
    assert_eq!(winner.won_default, 0);
    assert_eq!(winner.moves_made, 2);
    assert_eq!(winner.checks_given, 1);
    assert_eq!(winner.pieces_captured, 0);

    let loser = svc.statistics(white);
    assert_eq!(loser.lost_checkmate, 1);
    assert_eq!(loser.won_checkmate, 0);
    assert_eq!(loser.lost_resigned, 0);
    assert_eq!(loser.moves_made, 2);
    assert_eq!(loser.checks_given, 0);
}

#[test]
fn captures_are_counted_from_the_move_text() {
    let (mut svc, white, black) = running();
    svc.message_move(CHANNEL, white, "e4").expect("slot").expect("legal");
    svc.message_move(CHANNEL, black, "d5").expect("slot").expect("legal");
    let rep = svc.message_move(CHANNEL, white, "exd5").expect("slot").expect("legal");
    assert!(rep.capture);
    let s = svc.statistics(white);
    assert_eq!(s.moves_made, 2);
    assert_eq!(s.pieces_captured, 1);
}

#[test]
fn resignation_counts_a_default_win_and_a_resignation_loss() {
    let (mut svc, white, black) = running();
    svc.resign(CHANNEL, black).expect("participant may resign");
    let w = svc.statistics(white);
    let b = svc.statistics(black);
    assert_eq!(w.won_default, 1);
    assert_eq!(w.won_checkmate, 0);
    assert_eq!(b.lost_resigned, 1);
    assert_eq!(b.lost_checkmate, 0);
}

#[test]
fn agreed_draw_counts_for_both_players() {
    let (mut svc, white, black) = running();
    // White offers: nothing changes but the pending offer.
    let ev = svc.draw(CHANNEL, white).expect("offer records");
    assert!(matches!(ev, DrawEvent::Offered));
    assert_eq!(svc.statistics(white).drawn_agreement, 0);
    // Black's request is read as acceptance and ends the game.
    let ev = svc.draw(CHANNEL, black).expect("acceptance works");
    match ev {
        DrawEvent::Accepted(out) => assert_eq!(out, Some(Outcome::DrawAccepted)),
        other => panic!("expected acceptance, got {other:?}"),
    }
    assert_eq!(svc.statistics(white).drawn_agreement, 1);
    assert_eq!(svc.statistics(black).drawn_agreement, 1);
    assert_eq!(svc.statistics(white).won_default, 0);
    assert_eq!(svc.statistics(black).lost_resigned, 0);
}

#[test]
fn direct_aggregator_updates() {
    let mut agg = StatsAggregator::new();
    agg.record_move(7, true, false);
    agg.record_move(7, false, true);
    agg.record_outcome(7, 8, Outcome::Stalemate);
    let a = agg.snapshot(7);
    assert_eq!(a.moves_made, 2);
    assert_eq!(a.pieces_captured, 1);
    assert_eq!(a.checks_given, 1);
    assert_eq!(a.drawn_stalemate, 1);
    let b = agg.snapshot(8);
    assert_eq!(b.drawn_stalemate, 1);
    assert_eq!(b.moves_made, 0);
}

#[test]
fn totals_add_up() {
    let mut agg = StatsAggregator::new();
    agg.record_outcome(7, 8, Outcome::WhiteCheckmates);
    agg.record_outcome(7, 8, Outcome::WhiteResigns);
    agg.record_outcome(7, 8, Outcome::DrawDeclared);
    agg.record_outcome(8, 7, Outcome::BlackResigns);
    let s = agg.snapshot(7);
    assert_eq!(s.total_won(), 1);
    assert_eq!(s.total_lost(), 2);
    assert_eq!(s.total_drawn(), 1);
    assert_eq!(s.total_games(), 4);
}

#[test]
fn saturating_addition_caps_at_the_top() {
    assert_eq!(sat_add_exec(2, 3), 5);
    assert_eq!(sat_add_exec(u64::MAX, 1), u64::MAX);
    assert_eq!(sat_add_exec(u64::MAX - 1, 1), u64::MAX);
    assert_eq!(sat_add_exec(u64::MAX, u64::MAX), u64::MAX);
}
