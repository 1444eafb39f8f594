use chess_sessions::events::CommandError;
use chess_sessions::service::Service;

const GUILD: u64 = 1;
const CHANNEL: u64 = 5;
const ALICE: u64 = 100;
const BOB: u64 = 200;

#[test]
fn disable_gates_play_and_enable_reopens() {
    let mut svc = Service::new();
    svc.disable(GUILD, CHANNEL);
    let r = svc.play(GUILD, CHANNEL, ALICE, "<@200>");
    assert_eq!(r, Err(CommandError::PermissionDenied));
    // Another channel of the guild is still open.
    assert!(svc.play(GUILD, CHANNEL + 1, ALICE, "<@200>").is_ok());
    svc.enable(GUILD, CHANNEL);
    assert!(svc.play(GUILD, CHANNEL, ALICE, "<@200>").is_ok());
}

#[test]
fn play_without_a_mention_is_answered() {
    let mut svc = Service::new();
    assert_eq!(svc.play(GUILD, CHANNEL, ALICE, "Bob"), Err(CommandError::BadMention));
    assert_eq!(svc.play(GUILD, CHANNEL, ALICE, ""), Err(CommandError::BadMention));
}

#[test]
fn permissions_commands_scrub_and_resolve() {
    let mut svc = Service::new();
    svc.permissions_set(GUILD, "chess.games.<allow>.#5 ", false);
    let r = svc.permissions_query(GUILD, CHANNEL, ALICE, "chess.games.allow");
    assert_eq!(r, Some((false, String::from("chess.games.allow.#5"))));
    // Elsewhere the seeded default still answers.
    let r = svc.permissions_query(GUILD, 9, ALICE, "chess.games.allow");
    assert_eq!(r, Some((true, String::from("allow"))));
    svc.permissions_reset(GUILD, "chess.games.allow.#5");
    let r = svc.permissions_query(GUILD, CHANNEL, ALICE, "chess.games.allow");
    assert_eq!(r, Some((true, String::from("allow"))));
}

#[test]
fn guild_settings_round_trip() {
    let mut svc = Service::new();
    assert_eq!(svc.get_guild_setting(GUILD, String::from("deleteOld")), Some(String::from("onNext")));
    assert_eq!(svc.get_guild_setting(GUILD, String::from("theme")), None);
    let old = svc.set_guild_setting(GUILD, String::from("deleteOld"), String::from("off"));
    assert_eq!(old, Some(String::from("onNext")));
    assert_eq!(svc.get_guild_setting(GUILD, String::from("deleteOld")), Some(String::from("off")));
}

#[test]
fn preferences_are_gated_and_seeded() {
    let mut svc = Service::new();
    assert_eq!(
        svc.preference_get(GUILD, CHANNEL, ALICE, String::from("flipIfBlack")),
        Ok(Some(String::from("true")))
    );
    let old = svc
        .preference_set(GUILD, CHANNEL, ALICE, String::from("flipIfBlack"), String::from("false"))
        .expect("allowed by default");
    assert_eq!(old, Some(String::from("true")));
    assert_eq!(
        svc.preference_get(GUILD, CHANNEL, ALICE, String::from("flipIfBlack")),
        Ok(Some(String::from("false")))
    );
    // A denial of prefs.allow shuts the door.
    svc.permissions_set(GUILD, "prefs.allow", false);
    assert_eq!(
        svc.preference_get(GUILD, CHANNEL, ALICE, String::from("flipIfBlack")),
        Err(CommandError::PermissionDenied)
    );
}

#[test]
fn on_next_retention_keeps_at_most_one_board() {
    let mut svc = Service::new();
    svc.play(GUILD, CHANNEL, ALICE, "<@200>").expect("play");
    svc.accept(CHANNEL, BOB).expect("accept");
    // The seeded policy is onNext: each render deletes the one before.
    assert_eq!(svc.note_render(GUILD, CHANNEL, 1000), Ok(None));
    assert_eq!(svc.note_render(GUILD, CHANNEL, 1001), Ok(Some(1000)));
    assert_eq!(svc.note_render(GUILD, CHANNEL, 1002), Ok(Some(1001)));
}

#[test]
fn off_retention_keeps_everything() {
    let mut svc = Service::new();
    svc.set_guild_setting(GUILD, String::from("deleteOld"), String::from("off"));
    svc.play(GUILD, CHANNEL, ALICE, "<@200>").expect("play");
    svc.accept(CHANNEL, BOB).expect("accept");
    assert_eq!(svc.note_render(GUILD, CHANNEL, 1), Ok(None));
    assert_eq!(svc.note_render(GUILD, CHANNEL, 2), Ok(None));
    assert_eq!(svc.note_render(GUILD, CHANNEL, 3), Ok(None));
}

#[test]
fn on_end_retention_caps_at_one_hundred() {
    let mut svc = Service::new();
    svc.set_guild_setting(GUILD, String::from("deleteOld"), String::from("onEnd"));
    svc.play(GUILD, CHANNEL, ALICE, "<@200>").expect("play");
    svc.accept(CHANNEL, BOB).expect("accept");
    for i in 0..100u64 {
        assert_eq!(svc.note_render(GUILD, CHANNEL, i), Ok(None));
    }
    assert_eq!(svc.note_render(GUILD, CHANNEL, 100), Ok(Some(0)));
    assert_eq!(svc.note_render(GUILD, CHANNEL, 101), Ok(Some(1)));
}

#[test]
fn rendering_without_a_session_is_refused() {
    let mut svc = Service::new();
    assert_eq!(svc.note_render(GUILD, CHANNEL, 1), Err(CommandError::NoSession));
}
