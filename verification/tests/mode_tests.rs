use easycurses::{
    code_to_visibility, effective_wait, visibility_to_code, CursorVisibility, TimeoutMode,
};

#[test]
fn default_cursor_visibility_is_visible() {
    assert_eq!(CursorVisibility::default(), CursorVisibility::Visible);
}

#[test]
fn default_timeout_is_never() {
    assert_eq!(TimeoutMode::default(), TimeoutMode::Never);
}

#[test]
fn negative_wait_clamps_to_zero() {
    // WaitUpTo(-5) configures the same effective wait as WaitUpTo(0).
    assert_eq!(
        effective_wait(TimeoutMode::WaitUpTo(-5)),
        effective_wait(TimeoutMode::WaitUpTo(0))
    );
    assert_eq!(effective_wait(TimeoutMode::WaitUpTo(-5)), 0);
    assert_eq!(effective_wait(TimeoutMode::WaitUpTo(i32::MIN)), 0);
}

#[test]
fn effective_wait_concrete_values() {
    assert_eq!(effective_wait(TimeoutMode::Immediate), 0);
    assert_eq!(effective_wait(TimeoutMode::Never), -1);
    assert_eq!(effective_wait(TimeoutMode::WaitUpTo(250)), 250);
    assert_eq!(effective_wait(TimeoutMode::WaitUpTo(0)), 0);
}

#[test]
fn visibility_codes_round_trip() {
    for vis in [
        CursorVisibility::Invisible,
        CursorVisibility::Visible,
        CursorVisibility::HighlyVisible,
    ] {
        assert_eq!(code_to_visibility(visibility_to_code(vis)), Some(vis));
    }
}

#[test]
fn visibility_code_concrete_values() {
    assert_eq!(visibility_to_code(CursorVisibility::Invisible), 0);
    assert_eq!(visibility_to_code(CursorVisibility::Visible), 1);
    assert_eq!(visibility_to_code(CursorVisibility::HighlyVisible), 2);
}

#[test]
fn unknown_acknowledgement_codes_map_to_none() {
    assert_eq!(code_to_visibility(-1), None);
    assert_eq!(code_to_visibility(3), None);
    assert_eq!(code_to_visibility(i32::MAX), None);
}
