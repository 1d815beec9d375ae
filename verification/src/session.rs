//! The session lifecycle: the single-instance guard and the screen handle.
//!
//! At most one session may be live in a process at a time. The guard is one
//! process-wide atomic flag, owned by the embedding program and handed to
//! `initialize_system`; the flag transitions false to true only through one
//! winning compare-and-set there, and true to false only through
//! `end_session`. The guard's protocol is stated and proved on a pure model
//! below, since the atomic itself carries no specification.

use crate::colors::Color;
use crate::colors::color_to_i16;
use crate::colors::ColorPair;
use crate::coords::clamp_to_i32;
use crate::coords::rc_to_xy;
use crate::coords::xy_to_rc;
use crate::modes::effective_wait;
use crate::modes::code_to_visibility;
use crate::modes::visibility_to_code;
use crate::modes::CursorVisibility;
use crate::modes::InputMode;
use crate::modes::TimeoutMode;
use crate::provider::win_addch;
use crate::provider::win_attroff_bold;
use crate::provider::win_attroff_underline;
use crate::provider::win_attron_bold;
use crate::provider::win_attron_underline;
use crate::provider::win_addstr;
use crate::provider::win_insch;
use std::sync::atomic::AtomicBool;
use std::sync::atomic::Ordering;
use vstd::prelude::*;
use vstd::string::StrSliceExecFns;

verus! {

/// Whether the text holds the NUL character, which the provider's C strings
/// cannot carry.
pub open spec fn spec_has_nul(text: Seq<char>) -> bool {
    exists|i: int| 0 <= i < text.len() && text[i] == '\0'
}

/// The input events the provider cannot push back into its input queue: its
/// key tables lack these variants (the abort and left-help keys on the unix
/// backend; the event, A1, A3, B2, C1 and C3 keys on the Windows one), and
/// the conversion panics on a missing variant.
pub open spec fn spec_cannot_requeue(event: pancurses::Input) -> bool {
    ||| event == pancurses::Input::KeyAbort
    ||| event == pancurses::Input::KeyLHelp
    ||| event == pancurses::Input::KeyEvent
    ||| event == pancurses::Input::KeyA1
    ||| event == pancurses::Input::KeyA3
    ||| event == pancurses::Input::KeyB2
    ||| event == pancurses::Input::KeyC1
    ||| event == pancurses::Input::KeyC3
}

/// Scans a string for the NUL character.
pub fn has_nul(string: &str) -> (r: bool)
    ensures
        r == spec_has_nul(string@),
{
    let len = string.unicode_len();
    let mut i: usize = 0;
    while i < len
        invariant
            len == string@.len(),
            i <= len,
            forall|j: int| 0 <= j < i ==> string@[j] != '\0',
        decreases len - i,
    {
        if string.get_char(i) == '\0' {
            return true;
        }
        i = i + 1;
    }
    false
}

/// This is a handle to all your fun curses functionality.
///
/// The handle owns the provider's screen surface exclusively. Dropping it
/// does not by itself restore the terminal: teardown is the explicit
/// `end_session`, and the embedding program wraps the handle in a
/// scope-guard that calls it on every exit path, unwinding included.
#[derive(Debug)]
pub struct EasyCurses {
    /// This is the inner pancurses `Window` that the `EasyCurses` type wraps
    /// over.
    ///
    /// This is only intended to be used as a last resort, if you really want
    /// to call something that's not otherwise exposed. It's not "unsafe" to
    /// use in the memory sense, but bugs caused through it are your own.
    pub win: pancurses::Window,
    color_support: bool,
    /// Determines if the window will automatically resize itself when a
    /// resize event comes in through the input channel. Defaults to true. If
    /// you disable this and then don't call `resize` yourself after a resize
    /// event, the provider's size bookkeeping goes stale.
    pub auto_resize: bool,
    flag: &'static AtomicBool,
}

/// Converts a provider status code into `true` exactly when it is the
/// provider's canonical "ok" status, which is 0; every other status
/// collapses to `false`, since the provider reports nothing richer.
pub fn to_bool(curses_bool: i32) -> (r: bool)
    ensures
        r == (curses_bool == 0),
{
    curses_bool == 0
}

impl EasyCurses {
    /// Whether the handle cached color support at initialization.
    pub closed spec fn spec_color_support(self) -> bool {
        self.color_support
    }

    /// The handle's auto-resize policy flag.
    pub closed spec fn spec_auto_resize(self) -> bool {
        self.auto_resize
    }

    /// Initializes the curses system so that you can begin using curses.
    ///
    /// The caller supplies the process-wide session flag; every caller in
    /// one process must supply the same flag, or the single-session
    /// guarantee is lost. If the flag is already set, another session is
    /// live: `None` comes back at once, and no provider call is made.
    /// Otherwise the flag is won by one atomic compare-and-set, the
    /// provider's screen is initialized, and, when the terminal supports
    /// colors, every foreground/background combination is registered under
    /// its pair identifier up front.
    ///
    /// If the provider itself cannot initialize the terminal, it ends the
    /// process on its own; there is no way to intercept that here.
    pub fn initialize_system(flag: &'static AtomicBool) -> (r: Option<EasyCurses>)
        ensures
            r matches Some(e) ==> e.spec_auto_resize(),
    {
        let won = flag.compare_exchange(
            false,
            true,
            Ordering::SeqCst,
            Ordering::SeqCst,
        ).is_ok();
        complete_initialization(won, flag)
    }

    /// Tears the session down: leaves curses mode, restoring the terminal,
    /// and then releases the process-wide session flag, so that a later
    /// initialization can succeed. Consumes the handle.
    pub fn end_session(self) {
        pancurses::endwin();
        self.flag.store(false, Ordering::SeqCst);
    }

    /// On Win32 systems this allows you to set the title of the curses
    /// window. On other systems this does nothing at all. The title crosses
    /// the C boundary as a C string, so a title holding the NUL character is
    /// not passed on.
    pub fn set_title_win32(&mut self, title: &str)
        ensures
            *final(self) == *old(self),
    {
        if !has_nul(title) {
            pancurses::set_title(title);
        }
    }

    /// Attempts to assign a new cursor visibility. On success you get the
    /// previous setting back; `None` means the terminal does not support the
    /// request, or acknowledged it with a code that names no known mode.
    pub fn set_cursor_visibility(&mut self, vis: CursorVisibility) -> (r: Option<CursorVisibility>)
        ensures
            *final(self) == *old(self),
    {
        let acknowledgement = pancurses::curs_set(visibility_to_code(vis));
        code_to_visibility(acknowledgement)
    }

    /// Sets how typed input reaches the program: line buffered or one
    /// character at a time, with or without special-character processing.
    /// The starting mode is inherited from the terminal, so set the desired
    /// mode explicitly at the start of the program.
    pub fn set_input_mode(&mut self, mode: InputMode) -> (r: bool)
        ensures
            *final(self) == *old(self),
    {
        let status = match mode {
            InputMode::Character => pancurses::cbreak(),
            InputMode::Cooked => pancurses::nocbreak(),
            InputMode::RawCharacter => pancurses::raw(),
            InputMode::RawCooked => pancurses::noraw(),
        };
        to_bool(status)
    }

    /// This controls how long `get_input` will wait before returning `None`.
    ///
    /// The default mode is an unlimited wait. The `WaitUpTo` value is
    /// measured in milliseconds, and any negative value is treated as 0 (the
    /// same as an immediate timeout). The provider call cannot fail.
    pub fn set_input_timeout(&mut self, mode: TimeoutMode)
        ensures
            *final(self) == *old(self),
    {
        self.win.timeout(effective_wait(mode));
    }

    /// Enables special key processing from buttons such as the keypad and
    /// arrow keys. This defaults to `false`; you probably want it on.
    pub fn set_keypad_enabled(&mut self, use_keypad: bool) -> (r: bool)
        ensures
            *final(self) == *old(self),
    {
        to_bool(self.win.keypad(use_keypad))
    }

    /// Enables or disables the automatic echoing of input into the window as
    /// the user types. Defaults to on, but you probably want it off most of
    /// the time.
    pub fn set_echo(&mut self, echoing: bool) -> (r: bool)
        ensures
            *final(self) == *old(self),
    {
        let status = if echoing {
            pancurses::echo()
        } else {
            pancurses::noecho()
        };
        to_bool(status)
    }

    /// Checks if the current terminal supports the use of colors.
    pub fn is_color_terminal(&self) -> (r: bool)
        ensures
            r == self.spec_color_support(),
    {
        self.color_support
    }

    /// Sets the current color pair of the window. Output at any location
    /// will use this pair until a new pair is set. Does nothing if the
    /// terminal does not support colors in the first place.
    pub fn set_color_pair(&mut self, pair: ColorPair)
        ensures
            *final(self) == *old(self),
    {
        if self.color_support {
            self.win.color_set(pair.raw_id());
        }
    }

    /// Enables or disables bold text for all future input.
    pub fn set_bold(&mut self, bold_on: bool) -> (r: bool)
        ensures
            *final(self) == *old(self),
    {
        let status = if bold_on {
            win_attron_bold(&self.win)
        } else {
            win_attroff_bold(&self.win)
        };
        to_bool(status)
    }

    /// Enables or disables underlined text for all future input.
    pub fn set_underline(&mut self, underline_on: bool) -> (r: bool)
        ensures
            *final(self) == *old(self),
    {
        let status = if underline_on {
            win_attron_underline(&self.win)
        } else {
            win_attroff_underline(&self.win)
        };
        to_bool(status)
    }

    /// Returns the number of rows and columns available in the window. The
    /// counts are extents, so the addressable positions in each dimension
    /// are numbered 0 to N-1. They are queried fresh on every call, because
    /// the surface may have been resized.
    pub fn get_row_col_count(&mut self) -> (r: (i32, i32))
        ensures
            *final(self) == *old(self),
    {
        self.win.get_max_yx()
    }

    /// Moves the virtual cursor to the row and column specified, relative to
    /// the top left ("notepad" space). Does not move the terminal's
    /// displayed cursor (if any) until `refresh` is also called. Out of
    /// bounds locations cause this command to be ignored.
    pub fn move_rc(&mut self, row: i32, col: i32) -> (r: bool)
        ensures
            *final(self) == *old(self),
    {
        to_bool(self.win.mv(row, col))
    }

    /// Obtains the cursor's current position using `(R,C)` coordinates
    /// relative to the top left corner.
    pub fn get_cursor_rc(&self) -> (i32, i32) {
        self.win.get_cur_yx()
    }

    /// Moves the virtual cursor to the x and y specified, relative to the
    /// bottom left ("cartesian" space). Does not move the terminal's
    /// displayed cursor (if any) until `refresh` is also called. Out of
    /// bounds locations cause this command to be ignored.
    pub fn move_xy(&mut self, x: i32, y: i32) -> (r: bool)
        ensures
            *final(self) == *old(self),
    {
        let row_count = self.win.get_max_y();
        let target_row: i64 = row_count as i64 - (y as i64 + 1);
        if i32::MIN as i64 <= target_row && target_row <= i32::MAX as i64 {
            let rc = xy_to_rc(row_count, x, y);
            to_bool(self.win.mv(rc.0, rc.1))
        } else {
            // A row this far outside the surface cannot be represented in
            // the provider's coordinate type; like any other out-of-bounds
            // request it is ignored.
            false
        }
    }

    /// Obtains the cursor's current position using `(X,Y)` coordinates
    /// relative to the bottom left corner.
    pub fn get_cursor_xy(&self) -> (i32, i32) {
        let row_count = self.win.get_max_y();
        let cur = self.win.get_cur_yx();
        let y_wide: i64 = row_count as i64 - (cur.0 as i64 + 1);
        if i32::MIN as i64 <= y_wide && y_wide <= i32::MAX as i64 {
            rc_to_xy(row_count, cur.0, cur.1)
        } else {
            // The provider reports cursor positions inside the surface, for
            // which the translation always fits; this branch only guards
            // the arithmetic.
            (cur.1, clamp_to_i32(y_wide))
        }
    }

    /// When scrolling is enabled, any attempt to move off the bottom margin
    /// will cause lines within the scrolling region to scroll up one line.
    /// If a scrolling region is set but scrolling is not enabled then
    /// attempts to go off the bottom will just print nothing instead. Use
    /// `set_scroll_region` to control the size of the scrolling region.
    pub fn set_scrolling(&mut self, scrolling: bool) -> (r: bool)
        ensures
            *final(self) == *old(self),
    {
        to_bool(self.win.scrollok(scrolling))
    }

    /// Sets the top and bottom margins of the scrolling region. The inputs
    /// should be the line numbers (relative to the top of the screen) for
    /// the borders. Either border can be 0.
    pub fn set_scroll_region(&mut self, top: i32, bottom: i32) -> (r: bool)
        ensures
            *final(self) == *old(self),
    {
        to_bool(self.win.setscrreg(top, bottom))
    }

    /// Prints the given string into the window, as if each character were
    /// written one at a time. The provider takes the text as a C string,
    /// which cannot carry the NUL character: a string that holds one is not
    /// passed on, and the call reports failure instead.
    pub fn print(&mut self, string: &str) -> (r: bool)
        ensures
            *final(self) == *old(self),
            spec_has_nul(string@) ==> r == false,
    {
        if has_nul(string) {
            false
        } else {
            to_bool(win_addstr(&self.win, string))
        }
    }

    /// Prints the given character into the window.
    pub fn print_char(&mut self, character: char) -> (r: bool)
        ensures
            *final(self) == *old(self),
    {
        to_bool(win_addch(&self.win, character))
    }

    /// Inserts the character desired at the current location, pushing the
    /// current character at that location (and all after it on the same
    /// line) one cell to the right.
    pub fn insert_char(&mut self, character: char) -> (r: bool)
        ensures
            *final(self) == *old(self),
    {
        to_bool(win_insch(&self.win, character))
    }

    /// Deletes the character under the cursor. Characters after it on the
    /// same line are pulled left one position and the final character cell
    /// is left blank. The cursor position does not move.
    pub fn delete_char(&mut self) -> (r: bool)
        ensures
            *final(self) == *old(self),
    {
        to_bool(self.win.delch())
    }

    /// Inserts a line above the current line. The bottom line is lost.
    pub fn insert_line(&mut self) -> (r: bool)
        ensures
            *final(self) == *old(self),
    {
        to_bool(self.win.insertln())
    }

    /// Deletes the line under the cursor. Lines below are moved up one line
    /// and the final line is left blank. The cursor position does not move.
    pub fn delete_line(&mut self) -> (r: bool)
        ensures
            *final(self) == *old(self),
    {
        to_bool(self.win.deleteln())
    }

    /// For positive n, insert n lines into the specified window above the
    /// current line. The n bottom lines are lost. For negative n, delete n
    /// lines (starting with the one under the cursor), and move the
    /// remaining lines up. The bottom n lines are cleared. The current
    /// cursor position remains the same.
    pub fn bulk_insert_delete_line(&mut self, n: i32) -> (r: bool)
        ensures
            *final(self) == *old(self),
    {
        to_bool(self.win.insdelln(n))
    }

    /// Clears the entire screen.
    pub fn clear(&mut self) -> (r: bool)
        ensures
            *final(self) == *old(self),
    {
        to_bool(self.win.clear())
    }

    /// Refreshes the window's appearance on the screen. With some
    /// implementations you don't need to call this, the screen will refresh
    /// itself on its own. However, for portability, you should call this at
    /// the end of each draw cycle.
    pub fn refresh(&mut self) -> (r: bool)
        ensures
            *final(self) == *old(self),
    {
        to_bool(self.win.refresh())
    }

    /// Plays an audible beep if possible, if not the screen is flashed. If
    /// neither is available then nothing happens.
    pub fn beep(&mut self)
        ensures
            *final(self) == *old(self),
    {
        pancurses::beep();
    }

    /// Flashes the screen if possible, if not an audible beep is played. If
    /// neither is available then nothing happens.
    pub fn flash(&mut self)
        ensures
            *final(self) == *old(self),
    {
        pancurses::flash();
    }

    /// Gets an `Input` from the curses input buffer. This will block or not
    /// according to the configured timeout mode, see `set_input_timeout`.
    /// If the event is a resize notification and `auto_resize` is enabled
    /// then the provider's size bookkeeping is synchronized before the event
    /// is handed back; the event itself is still delivered, so that you can
    /// update anything else that depends on the size.
    pub fn get_input(&mut self) -> (r: Option<pancurses::Input>)
        ensures
            *final(self) == *old(self),
    {
        let event = self.win.getch();
        self.apply_auto_resize(event)
    }

    /// Applies the auto-resize policy to one polled event: when the policy
    /// asks for it, the provider's size bookkeeping is synchronized from the
    /// real terminal dimensions. The event is handed back unchanged, so the
    /// caller always observes what was polled.
    pub fn apply_auto_resize(&mut self, event: Option<pancurses::Input>) -> (r: Option<
        pancurses::Input,
    >)
        ensures
            r == event,
            *final(self) == *old(self),
    {
        if wants_size_sync(self.auto_resize, &event) {
            let _ = self.resize(0, 0);
        }
        event
    }

    /// Discards all type-ahead that has been input by the user but not yet
    /// read by the program.
    pub fn flush_input(&mut self)
        ensures
            *final(self) == *old(self),
    {
        pancurses::flushinp();
    }

    /// Pushes an `Input` value into the input stack so that it will be
    /// returned by the next call to `get_input`. The return value is if the
    /// operation was successful. The events the provider's key tables cannot
    /// re-queue (see `spec_cannot_requeue`) report failure without reaching
    /// the provider.
    pub fn un_get_input(&mut self, input: &pancurses::Input) -> (r: bool)
        ensures
            *final(self) == *old(self),
            spec_cannot_requeue(*input) ==> r == false,
    {
        match *input {
            pancurses::Input::KeyAbort
            | pancurses::Input::KeyLHelp
            | pancurses::Input::KeyEvent
            | pancurses::Input::KeyA1
            | pancurses::Input::KeyA3
            | pancurses::Input::KeyB2
            | pancurses::Input::KeyC1
            | pancurses::Input::KeyC3 => false,
            _ => to_bool(self.win.ungetch(input)),
        }
    }

    /// Sets the window to use the number of lines and columns specified. If
    /// you pass zero for both then the provider's data structures are made
    /// to match the current size of the window. This is done automatically
    /// for you when a resize event comes in through the input buffer and
    /// `auto_resize` is on.
    pub fn resize(&mut self, new_lines: i32, new_cols: i32) -> (r: bool)
        ensures
            *final(self) == *old(self),
    {
        to_bool(pancurses::resize_term(new_lines, new_cols))
    }
}

/// Whether one polled event obliges the handle to synchronize the
/// provider's size bookkeeping: only a resize notification does, and only
/// under the auto-resize policy.
pub open spec fn spec_wants_size_sync(auto_resize: bool, event: Option<pancurses::Input>) -> bool {
    auto_resize && event == Some(pancurses::Input::KeyResize)
}

/// Decides whether a polled event calls for a size synchronization.
pub fn wants_size_sync(auto_resize: bool, event: &Option<pancurses::Input>) -> (r: bool)
    ensures
        r == spec_wants_size_sync(auto_resize, *event),
{
    auto_resize && matches!(*event, Some(pancurses::Input::KeyResize))
}

/// Completes an initialization attempt from the guard's outcome: a handle
/// comes back exactly when the guard was won. When it was not, the provider
/// is left untouched and the distinct already-initialized signal (`None`)
/// goes back; when it was, the provider's screen is initialized, color
/// support is queried, and the handle is built over the outcome.
fn complete_initialization(won: bool, flag: &'static AtomicBool) -> (r: Option<EasyCurses>)
    ensures
        r is Some <==> won,
        r matches Some(e) ==> e.spec_auto_resize(),
{
    if won {
        let win = pancurses::initscr();
        let mut color_support = false;
        if pancurses::has_colors() {
            color_support = to_bool(pancurses::start_color());
        }
        Some(finish_initialization(win, color_support, flag))
    } else {
        None
    }
}

/// Builds the session handle over the provider's screen from the computed
/// color-support outcome: the handle caches exactly that outcome and starts
/// with auto-resize on. When colors are supported, every
/// foreground/background combination is registered under its pair
/// identifier before the handle is handed back; when they are not, no pair
/// is registered at all.
fn finish_initialization(
    win: pancurses::Window,
    color_support: bool,
    flag: &'static AtomicBool,
) -> (e: EasyCurses)
    ensures
        e.win == win,
        e.spec_auto_resize(),
        e.spec_color_support() == color_support,
{
    if color_support {
        register_all_color_pairs();
    }
    EasyCurses { win, color_support, auto_resize: true, flag }
}

/// Registers every foreground/background combination with the provider
/// under its pair identifier. Every identifier handed over provably lies in
/// 1 to 64; their validity rests on the provider's documented minimum of 64
/// color pairs.
fn register_all_color_pairs() {
    let palette = Color::color_iterator();
    let mut i: usize = 0;
    while i < palette.len()
        invariant
            palette@.len() == 8,
        decreases 8 - i,
    {
        let mut j: usize = 0;
        while j < palette.len()
            invariant
                palette@.len() == 8,
                i < 8,
            decreases 8 - j,
        {
            let fgi = color_to_i16(palette[i]);
            let bgi = color_to_i16(palette[j]);
            let pair_id = ColorPair::fgbg_pairid(fgi, bgi);
            pancurses::init_pair(pair_id, fgi, bgi);
            j = j + 1;
        }
        i = i + 1;
    }
}

/// The process-wide flag after an initialization attempt: the attempt either
/// finds the flag set or sets it, so it is set either way.
pub open spec fn flag_after_initialize(live: bool) -> bool {
    true
}

/// Whether an initialization attempt wins: only when no session is live.
pub open spec fn initialize_wins(live: bool) -> bool {
    !live
}

/// The process-wide flag after teardown: teardown always releases it.
pub open spec fn flag_after_teardown(live: bool) -> bool {
    false
}

/// One initialization attempt, as a pure step on the guard's flag: hands
/// back the flag's new value and whether the attempt won. The atomic
/// compare-and-set in `initialize_system` performs exactly this step, as one
/// indivisible read-and-conditional-write.
pub fn guard_initialize_step(live: bool) -> (r: (bool, bool))
    ensures
        r.0 == flag_after_initialize(live),
        r.1 == initialize_wins(live),
{
    (true, !live)
}

/// Teardown's step on the guard's flag: the flag is released whatever it
/// held. The store in `end_session` performs this step.
pub fn guard_teardown_step(live: bool) -> (r: bool)
    ensures
        r == flag_after_teardown(live),
{
    let _ = live;
    false
}

/// Law: the guard admits one session at a time. From a free flag an attempt
/// wins; while a session is live every further attempt loses; and once
/// teardown has run, an attempt wins again.
pub proof fn lemma_session_singleton(live: bool)
    ensures
        initialize_wins(false),
        !initialize_wins(flag_after_initialize(live)),
        initialize_wins(flag_after_teardown(live)),
{
}

} // verus!
