//! A simplified terminal-control abstraction layered over the curses library.
//!
//! The crate exposes one handle representing the screen, through which cursor
//! placement, colors, input modes, and screen mutation are expressed as safe,
//! fallible operations. The handle restores the terminal on every exit path
//! that unwinds; only an abort skips the cleanup.

mod colors;
mod coords;
mod modes;
mod provider;
mod session;

pub use pancurses::Input;

pub use colors::{
    color_index, color_of, color_to_i16, i16_to_color, lemma_color_conversion_identity,
    lemma_default_pair_distinct_from_reserved,
    lemma_pair_eq_follows_id, lemma_pair_id_bijective, spec_pair_id, Color, ColorPair,
};
pub use coords::{
    clamp_to_i32, lemma_coordinate_round_trip, rc_to_xy, spec_rc_to_xy, spec_xy_to_rc, xy_to_rc,
};
pub use modes::{
    code_to_visibility, effective_wait, lemma_negative_wait_clamped, spec_effective_wait,
    spec_visibility_code, spec_visibility_of_code, visibility_to_code, CursorVisibility, InputMode,
    TimeoutMode,
};
pub use session::{
    flag_after_initialize, flag_after_teardown, guard_initialize_step, guard_teardown_step,
    has_nul, initialize_wins, lemma_session_singleton, spec_cannot_requeue, spec_has_nul,
    spec_wants_size_sync, to_bool, wants_size_sync, EasyCurses,
};
