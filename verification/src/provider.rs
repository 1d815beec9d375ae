//! The boundary with the capability provider.
//!
//! Everything in this module is trusted: each item's contract is what the
//! library assumes of the pancurses crate, and Verus believes it without
//! proof. The contracts deliberately promise almost nothing, because nearly
//! every provider call answers from the live terminal, whose state lies
//! outside the program; the library's own guarantees are stated on the
//! verified functions that prepare the arguments for these calls and
//! interpret their results.

use vstd::prelude::*;

verus! {

/// The provider's window handle. Opaque to the library: every reading of it
/// goes through a provider call.
#[verifier::external_type_specification]
#[verifier::external_body]
pub struct ExWindow(pancurses::Window);

/// One input event as the provider reports it. The enumeration is plain
/// data, so its variants stay visible to verified code.
#[verifier::external_type_specification]
pub struct ExInput(pancurses::Input);

/// Relies on pancurses::initscr: puts the terminal into curses mode and
/// hands back the screen-sized window. The provider itself ends the process
/// if the terminal cannot be initialized; that is documented as outside this
/// library's control.
pub assume_specification[ pancurses::initscr ]() -> pancurses::Window;

/// Relies on pancurses::endwin: leaves curses mode and restores the
/// terminal.
pub assume_specification[ pancurses::endwin ]() -> i32;

/// Relies on pancurses::has_colors: whether the terminal can manipulate
/// colors.
pub assume_specification[ pancurses::has_colors ]() -> bool;

/// Relies on pancurses::start_color: activates color support.
pub assume_specification[ pancurses::start_color ]() -> i32;

/// Relies on pancurses::init_pair: registers a pair identifier against a
/// foreground and a background color identifier.
pub assume_specification[ pancurses::init_pair ](
    pair_index: i16,
    foreground_color: i16,
    background_color: i16,
) -> i32;

/// Relies on pancurses::curs_set: requests a cursor visibility and answers
/// with the previous visibility's code, or an error code where the terminal
/// does not support the request.
pub assume_specification[ pancurses::curs_set ](visibility: i32) -> i32;

/// Relies on pancurses::cbreak: characters are passed through one at a time,
/// with special-character processing left on.
pub assume_specification[ pancurses::cbreak ]() -> i32;

/// Relies on pancurses::nocbreak: input returns to line buffering.
pub assume_specification[ pancurses::nocbreak ]() -> i32;

/// Relies on pancurses::raw: characters one at a time, and special-character
/// sequences are not processed.
pub assume_specification[ pancurses::raw ]() -> i32;

/// Relies on pancurses::noraw: line buffering without special-character
/// processing.
pub assume_specification[ pancurses::noraw ]() -> i32;

/// Relies on pancurses::echo: typed input is mirrored to the surface.
pub assume_specification[ pancurses::echo ]() -> i32;

/// Relies on pancurses::noecho: typed input is no longer mirrored.
pub assume_specification[ pancurses::noecho ]() -> i32;

/// Relies on pancurses::beep: an audible alert, falling back to a flash.
pub assume_specification[ pancurses::beep ]() -> i32;

/// Relies on pancurses::flash: a visible alert, falling back to a beep.
pub assume_specification[ pancurses::flash ]() -> i32;

/// Relies on pancurses::flushinp: discards buffered, unread input.
pub assume_specification[ pancurses::flushinp ]() -> i32;

/// Relies on pancurses::resize_term: adjusts the provider's internal size
/// bookkeeping to the given extent, or to the detected one when both
/// arguments are 0.
pub assume_specification[ pancurses::resize_term ](nlines: i32, ncols: i32) -> i32;

/// Relies on pancurses::set_title: sets the platform window title where the
/// platform has one; elsewhere it does nothing. Where it does set one, the
/// title crosses the C boundary as a C string, whose conversion panics on a
/// NUL character, so the title must hold none.
pub assume_specification[ pancurses::set_title ](title: &str)
    requires
        !crate::session::spec_has_nul(title@),
;

/// Relies on pancurses::Window::timeout: configures how long one input read
/// may block, in milliseconds; a negative wait blocks without limit.
pub assume_specification[ pancurses::Window::timeout ](
    w: &pancurses::Window,
    milliseconds: i32,
);

/// Relies on pancurses::Window::keypad: whether multi-byte key sequences
/// decode to symbolic keys.
pub assume_specification[ pancurses::Window::keypad ](
    w: &pancurses::Window,
    use_keypad: bool,
) -> i32;

/// Relies on pancurses::Window::color_set: selects the registered color pair
/// under which later output is drawn.
pub assume_specification[ pancurses::Window::color_set ](
    w: &pancurses::Window,
    color_pair: i16,
) -> i32;

/// Relies on pancurses::Window::mv: moves the virtual cursor to a row and
/// column; an out-of-bounds request is ignored and answered with the error
/// status.
pub assume_specification[ pancurses::Window::mv ](w: &pancurses::Window, y: i32, x: i32) -> i32;

/// Relies on pancurses::Window::get_max_yx: the surface extent as a row and
/// column count.
pub assume_specification[ pancurses::Window::get_max_yx ](w: &pancurses::Window) -> (i32, i32);

/// Relies on pancurses::Window::get_max_y: the surface's row count.
pub assume_specification[ pancurses::Window::get_max_y ](w: &pancurses::Window) -> i32;

/// Relies on pancurses::Window::get_cur_yx: the cursor position in native
/// row/column space.
pub assume_specification[ pancurses::Window::get_cur_yx ](w: &pancurses::Window) -> (i32, i32);

/// Relies on pancurses::Window::delch: deletes the character under the
/// cursor, pulling the rest of the line left.
pub assume_specification[ pancurses::Window::delch ](w: &pancurses::Window) -> i32;

/// Relies on pancurses::Window::deleteln: deletes the line under the cursor,
/// moving the lines below it up.
pub assume_specification[ pancurses::Window::deleteln ](w: &pancurses::Window) -> i32;

/// Relies on pancurses::Window::insertln: inserts a blank line above the
/// current line; the bottom line is lost.
pub assume_specification[ pancurses::Window::insertln ](w: &pancurses::Window) -> i32;

/// Relies on pancurses::Window::insdelln: inserts n lines above the current
/// line for positive n, deletes n lines starting at the cursor for negative
/// n.
pub assume_specification[ pancurses::Window::insdelln ](w: &pancurses::Window, n: i32) -> i32;

/// Relies on pancurses::Window::clear: clears the whole surface.
pub assume_specification[ pancurses::Window::clear ](w: &pancurses::Window) -> i32;

/// Relies on pancurses::Window::refresh: flushes pending mutations to the
/// physical display.
pub assume_specification[ pancurses::Window::refresh ](w: &pancurses::Window) -> i32;

/// Relies on pancurses::Window::getch: polls one input event, honoring the
/// configured timeout; `None` when the wait ran out.
pub assume_specification[ pancurses::Window::getch ](
    w: &pancurses::Window,
) -> Option<pancurses::Input>;

/// Relies on pancurses::Window::ungetch: pushes one event back so the next
/// poll redelivers it. The provider converts the event back to a key code
/// by searching its key table, and panics on a key the table does not
/// carry; the events missing from either backend's table are excluded here.
pub assume_specification[ pancurses::Window::ungetch ](
    w: &pancurses::Window,
    input: &pancurses::Input,
) -> i32
    requires
        !crate::session::spec_cannot_requeue(*input),
;

/// Relies on pancurses::Window::setscrreg: sets the top and bottom margins
/// of the scrolling region.
pub assume_specification[ pancurses::Window::setscrreg ](
    w: &pancurses::Window,
    top: i32,
    bot: i32,
) -> i32;

/// Relies on pancurses::Window::scrollok: whether moving off the bottom
/// margin scrolls the scrolling region.
pub assume_specification[ pancurses::Window::scrollok ](w: &pancurses::Window, bf: bool) -> i32;

/// Relies on pancurses::Window::addstr: writes the characters of the string
/// at the cursor, as data, like one addch per character. The provider hands
/// the text to the C layer as a C string, and its conversion panics on a NUL
/// character, so the text must hold none.
#[verifier::external_body]
pub(crate) fn win_addstr(w: &pancurses::Window, string: &str) -> i32
    requires
        !crate::session::spec_has_nul(string@),
{
    w.addstr(string)
}

/// Relies on pancurses::Window::addch: writes one character at the cursor,
/// replacing what is there, and advances the cursor.
#[verifier::external_body]
pub(crate) fn win_addch(w: &pancurses::Window, character: char) -> i32 {
    w.addch(character)
}

/// Relies on pancurses::Window::insch: inserts one character at the cursor,
/// pushing the rest of the line right.
#[verifier::external_body]
pub(crate) fn win_insch(w: &pancurses::Window, character: char) -> i32 {
    w.insch(character)
}

/// Relies on pancurses::Window::attron with the bold attribute: bold text
/// for subsequently drawn characters.
#[verifier::external_body]
pub(crate) fn win_attron_bold(w: &pancurses::Window) -> i32 {
    w.attron(pancurses::Attribute::Bold)
}

/// Relies on pancurses::Window::attroff with the bold attribute.
#[verifier::external_body]
pub(crate) fn win_attroff_bold(w: &pancurses::Window) -> i32 {
    w.attroff(pancurses::Attribute::Bold)
}

/// Relies on pancurses::Window::attron with the underline attribute:
/// underlined text for subsequently drawn characters.
#[verifier::external_body]
pub(crate) fn win_attron_underline(w: &pancurses::Window) -> i32 {
    w.attron(pancurses::Attribute::Underline)
}

/// Relies on pancurses::Window::attroff with the underline attribute.
#[verifier::external_body]
pub(crate) fn win_attroff_underline(w: &pancurses::Window) -> i32 {
    w.attroff(pancurses::Attribute::Underline)
}

} // verus!
