use easycurses::{
    guard_initialize_step, guard_teardown_step, has_nul, to_bool, wants_size_sync, Input,
};

#[test]
fn session_guard_admits_one_session_at_a_time() {
    // From a free flag, an initialization attempt wins and sets the flag.
    let (live, won) = guard_initialize_step(false);
    assert!(won);
    assert!(live);
    // While a session is live, a second attempt loses; the flag stays set.
    let (still_live, second_won) = guard_initialize_step(live);
    assert!(!second_won);
    assert!(still_live);
    // After teardown releases the flag, an attempt wins again.
    let after_teardown = guard_teardown_step(still_live);
    assert!(!after_teardown);
    let (_, third_won) = guard_initialize_step(after_teardown);
    assert!(third_won);
}

#[test]
fn to_bool_follows_the_provider_ok_status() {
    // The provider's canonical success status, and its failure status.
    assert_eq!(pancurses::OK, 0);
    assert_eq!(pancurses::ERR, -1);
    assert!(to_bool(pancurses::OK));
    assert!(!to_bool(pancurses::ERR));
    assert!(!to_bool(1));
}

#[test]
fn nul_is_detected_anywhere_in_a_string() {
    assert!(has_nul("\0"));
    assert!(has_nul("a\0b"));
    assert!(has_nul("trailing\0"));
    assert!(!has_nul(""));
    assert!(!has_nul("plain text"));
    assert!(!has_nul("wide \u{1F600} text"));
}

#[test]
fn size_sync_wanted_only_for_resize_under_the_policy() {
    assert!(wants_size_sync(true, &Some(Input::KeyResize)));
    assert!(!wants_size_sync(false, &Some(Input::KeyResize)));
    assert!(!wants_size_sync(true, &Some(Input::Character('a'))));
    assert!(!wants_size_sync(true, &None));
    assert!(!wants_size_sync(false, &None));
}
