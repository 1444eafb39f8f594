use chess_sessions::perm::GuildConfig;

fn fresh() -> GuildConfig {
    GuildConfig::new()
}

#[test]
fn default_allow_is_seeded() {
    let gc = fresh();
    let r = gc.get_perm(String::from("allow"), 1, 2);
    assert_eq!(r, Some((true, String::from("allow"))));
}

#[test]
fn channel_scope_overrides_general_default() {
    // The documented example: a channel-scoped denial wins in that
    // channel, while another channel falls through every
    // generalization to the seeded `allow = true`.
    let mut gc = fresh();
    gc.set_perm(String::from("chess.games.allow.#10"), false);
    let denied = gc.get_perm(String::from("chess.games.allow"), 42, 10);
    assert_eq!(denied, Some((false, String::from("chess.games.allow.#10"))));
    let open = gc.get_perm(String::from("chess.games.allow"), 42, 99);
    assert_eq!(open, Some((true, String::from("allow"))));
}

#[test]
fn full_scope_beats_user_and_channel() {
    let mut gc = fresh();
    gc.set_perm(String::from("k.@5.#6"), true);
    gc.set_perm(String::from("k.@5"), false);
    gc.set_perm(String::from("k.#6"), false);
    gc.set_perm(String::from("k"), false);
    let r = gc.get_perm(String::from("k"), 5, 6);
    assert_eq!(r, Some((true, String::from("k.@5.#6"))));
}

#[test]
fn user_grant_is_anded_with_channel_restriction() {
    let mut gc = fresh();
    gc.set_perm(String::from("k.@5"), true);
    gc.set_perm(String::from("k.#6"), false);
    // The user-scoped entry is matched, but its value is combined with
    // the channel restriction.
    let r = gc.get_perm(String::from("k"), 5, 6);
    assert_eq!(r, Some((false, String::from("k.@5"))));
    // In a channel without a restriction the grant stands alone.
    let r2 = gc.get_perm(String::from("k"), 5, 7);
    assert_eq!(r2, Some((true, String::from("k.@5"))));
}

#[test]
fn channel_only_beats_unscoped() {
    let mut gc = fresh();
    gc.set_perm(String::from("k.#6"), true);
    gc.set_perm(String::from("k"), false);
    let r = gc.get_perm(String::from("k"), 5, 6);
    assert_eq!(r, Some((true, String::from("k.#6"))));
}

#[test]
fn read_your_write() {
    let mut gc = fresh();
    gc.set_perm(String::from("a.b.c"), false);
    let r = gc.get_perm(String::from("a.b.c"), 1, 2);
    assert_eq!(r, Some((false, String::from("a.b.c"))));
}

#[test]
fn unset_falls_through_to_next_generalization() {
    let mut gc = fresh();
    gc.set_perm(String::from("a.b.c"), false);
    gc.set_perm(String::from("b.c"), true);
    gc.unset_perm(String::from("a.b.c"));
    let r = gc.get_perm(String::from("a.b.c"), 1, 2);
    assert_eq!(r, Some((true, String::from("b.c"))));
}

#[test]
fn unset_removes_only_the_literal_key() {
    let mut gc = fresh();
    gc.set_perm(String::from("a.b"), false);
    gc.unset_perm(String::from("b"));
    let r = gc.get_perm(String::from("a.b"), 1, 2);
    assert_eq!(r, Some((false, String::from("a.b"))));
}

#[test]
fn unresolved_key_returns_none() {
    let mut gc = fresh();
    gc.unset_perm(String::from("allow"));
    let r = gc.get_perm(String::from("nothing.here"), 1, 2);
    assert_eq!(r, None);
}

#[test]
fn empty_key_hits_only_empty_entries() {
    let gc = fresh();
    assert_eq!(gc.get_perm(String::from(""), 1, 2), None);
    let mut gc2 = fresh();
    gc2.set_perm(String::from(""), true);
    assert_eq!(gc2.get_perm(String::from(""), 1, 2), Some((true, String::from(""))));
}

#[test]
fn settings_are_seeded_and_overwritable() {
    let mut gc = fresh();
    assert_eq!(gc.get_setting(&String::from("deleteOld")), Some(&String::from("onNext")));
    gc.set_setting(String::from("deleteOld"), String::from("off"));
    assert_eq!(gc.get_setting(&String::from("deleteOld")), Some(&String::from("off")));
    assert_eq!(gc.get_setting(&String::from("missing")), None);
}
