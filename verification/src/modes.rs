//! The terminal configuration enumerations: cursor visibility, input mode,
//! and input timeout, with the numeric codes the provider takes for them.

use vstd::prelude::*;

verus! {

/// The three options you can pass to `EasyCurses::set_cursor_visibility`.
///
/// Note that not all terminals support all visibility modes.
#[derive(Debug, PartialEq, Eq, Clone, Copy, PartialOrd, Ord, Hash, Structural)]
pub enum CursorVisibility {
    /// Makes the cursor invisible. Supported on most terminals.
    Invisible,
    /// Makes the cursor visible in the normal way. The default.
    Visible,
    /// Makes the cursor "highly" visible in some way. Not supported on all
    /// terminals.
    HighlyVisible,
}

impl Default for CursorVisibility {
    /// The default `CursorVisibility` is `Visible`, the historical terminal
    /// default.
    fn default() -> (r: Self)
        ensures
            r == CursorVisibility::Visible,
    {
        CursorVisibility::Visible
    }
}

/// The numeric code under which the provider knows a visibility request.
pub open spec fn spec_visibility_code(vis: CursorVisibility) -> int {
    match vis {
        CursorVisibility::Invisible => 0,
        CursorVisibility::Visible => 1,
        CursorVisibility::HighlyVisible => 2,
    }
}

/// The visibility mode that a provider acknowledgement code names, if any:
/// codes 0, 1 and 2 name the three modes; every other code names none.
pub open spec fn spec_visibility_of_code(code: int) -> Option<CursorVisibility> {
    if code == 0 {
        Some(CursorVisibility::Invisible)
    } else if code == 1 {
        Some(CursorVisibility::Visible)
    } else if code == 2 {
        Some(CursorVisibility::HighlyVisible)
    } else {
        None
    }
}

/// Converts a visibility mode to the provider's code for it.
pub fn visibility_to_code(vis: CursorVisibility) -> (r: i32)
    ensures
        r == spec_visibility_code(vis),
{
    match vis {
        CursorVisibility::Invisible => 0,
        CursorVisibility::Visible => 1,
        CursorVisibility::HighlyVisible => 2,
    }
}

/// Reads a provider acknowledgement code back as a visibility mode; fails on
/// a code that maps to no known mode.
pub fn code_to_visibility(code: i32) -> (r: Option<CursorVisibility>)
    ensures
        r == spec_visibility_of_code(code as int),
{
    match code {
        0 => Some(CursorVisibility::Invisible),
        1 => Some(CursorVisibility::Visible),
        2 => Some(CursorVisibility::HighlyVisible),
        _ => None,
    }
}

/// The various input modes that you can set for the terminal.
///
/// Use this with `set_input_mode`.
#[derive(Debug, PartialEq, Eq, PartialOrd, Ord, Hash, Clone, Copy, Structural)]
pub enum InputMode {
    /// Line buffering (special character processing)
    Cooked,
    /// Characters visible immediately (special character processing)
    Character,
    /// Line buffering (no special processing)
    RawCooked,
    /// Characters visible immediately (no special processing)
    RawCharacter,
}

/// The various timeouts that you can set for `get_input` to operate with.
///
/// Use this with the `set_input_timeout` method.
#[derive(Debug, PartialEq, Eq, PartialOrd, Ord, Hash, Clone, Copy, Structural)]
pub enum TimeoutMode {
    /// If no input is available, return `None`.
    Immediate,
    /// Wait up to this many milliseconds before returning `None`.
    WaitUpTo(i32),
    /// Block until input is given.
    Never,
}

impl Default for TimeoutMode {
    /// The default `TimeoutMode` is `Never`: an unlimited wait.
    fn default() -> (r: Self)
        ensures
            r == TimeoutMode::Never,
    {
        TimeoutMode::Never
    }
}

/// The wait, in milliseconds, that a timeout mode configures on the provider:
/// 0 for an immediate return, -1 for an unlimited wait, and otherwise the
/// requested number of milliseconds with negative values clamped to 0.
pub open spec fn spec_effective_wait(mode: TimeoutMode) -> int {
    match mode {
        TimeoutMode::Immediate => 0,
        TimeoutMode::WaitUpTo(ms) => if ms < 0 {
            0
        } else {
            ms as int
        },
        TimeoutMode::Never => -1,
    }
}

/// Computes the provider wait for a timeout mode.
pub fn effective_wait(mode: TimeoutMode) -> (r: i32)
    ensures
        r == spec_effective_wait(mode),
{
    match mode {
        TimeoutMode::Immediate => 0,
        TimeoutMode::WaitUpTo(ms) => if ms < 0 {
            0
        } else {
            ms
        },
        TimeoutMode::Never => -1,
    }
}

/// Law: every negative wait request configures the same effective wait as a
/// request of 0, which in turn is the same wait as an immediate timeout.
pub proof fn lemma_negative_wait_clamped(ms: i32)
    requires
        ms <= 0,
    ensures
        spec_effective_wait(TimeoutMode::WaitUpTo(ms)) == spec_effective_wait(
            TimeoutMode::WaitUpTo(0),
        ),
        spec_effective_wait(TimeoutMode::WaitUpTo(ms)) == spec_effective_wait(
            TimeoutMode::Immediate,
        ),
{
}

} // verus!
