//! The curses color constants and the color-pair identity scheme.
//!
//! Curses supports eight different colors. Each character cell has one "color
//! pair" set, which is a foreground and background pairing. A pair is named by
//! a small-integer identifier computed as `1 + 8 * index(fg) + index(bg)`,
//! where `index` numbers the colors in enumeration order, Black first. This
//! keeps identifier 0 free: the provider reserves pair 0 for its built-in
//! default pair, which cannot be reassigned.

use vstd::prelude::*;

verus! {

/// The curses color constants.
///
/// Curses supports eight different colors. Each character cell has one "color
/// pair" set which is a foreground and background pairing. Note that a cell
/// can also be "bold", which might display as different colors on some
/// terminals.
#[allow(missing_docs)]
#[derive(Debug, PartialEq, Eq, PartialOrd, Ord, Hash, Clone, Copy, Structural)]
pub enum Color {
    Black,
    Red,
    Green,
    Yellow,
    Blue,
    Magenta,
    Cyan,
    White,
}

/// The index of a color in enumeration order, Black = 0 up to White = 7.
pub open spec fn color_index(c: Color) -> int {
    match c {
        Color::Black => 0,
        Color::Red => 1,
        Color::Green => 2,
        Color::Yellow => 3,
        Color::Blue => 4,
        Color::Magenta => 5,
        Color::Cyan => 6,
        Color::White => 7,
    }
}

/// The color whose index is `i`, for `i` in 0 to 7.
pub open spec fn color_of(i: int) -> Color {
    if i == 0 {
        Color::Black
    } else if i == 1 {
        Color::Red
    } else if i == 2 {
        Color::Green
    } else if i == 3 {
        Color::Yellow
    } else if i == 4 {
        Color::Blue
    } else if i == 5 {
        Color::Magenta
    } else if i == 6 {
        Color::Cyan
    } else {
        Color::White
    }
}

/// The pair identifier assigned to a foreground/background combination.
pub open spec fn spec_pair_id(fg: Color, bg: Color) -> int {
    1 + 8 * color_index(fg) + color_index(bg)
}

impl Color {
    /// Provides all of the `Color` values, in enumeration order.
    pub fn color_iterator() -> (r: Vec<Color>)
        ensures
            r@.len() == 8,
            forall|i: int| 0 <= i < 8 ==> r@[i] == color_of(i),
    {
        let colors: Vec<Color> = vec![
            Color::Black,
            Color::Red,
            Color::Green,
            Color::Yellow,
            Color::Blue,
            Color::Magenta,
            Color::Cyan,
            Color::White,
        ];
        colors
    }
}

/// Converts a `Color` to the `i16` associated with it.
pub fn color_to_i16(color: Color) -> (r: i16)
    ensures
        r == color_index(color),
{
    match color {
        Color::Black => 0,
        Color::Red => 1,
        Color::Green => 2,
        Color::Yellow => 3,
        Color::Blue => 4,
        Color::Magenta => 5,
        Color::Cyan => 6,
        Color::White => 7,
    }
}

/// Converts an `i16` to the `Color` associated with it. Fails if the input is
/// outside the range 0 to 7 (inclusive).
pub fn i16_to_color(val: i16) -> (r: Option<Color>)
    ensures
        r == (if 0 <= val <= 7 {
            Some(color_of(val as int))
        } else {
            None::<Color>
        }),
{
    match val {
        0 => Some(Color::Black),
        1 => Some(Color::Red),
        2 => Some(Color::Green),
        3 => Some(Color::Yellow),
        4 => Some(Color::Blue),
        5 => Some(Color::Magenta),
        6 => Some(Color::Cyan),
        7 => Some(Color::White),
        _ => None,
    }
}

/// A color pair for a character cell on the screen.
///
/// Use these with `EasyCurses::set_color_pair`. Each value carries the
/// identifier under which the pair was registered with the provider;
/// identifier 0 is never used, since the provider reserves it for its
/// built-in default pair.
#[derive(Debug, PartialEq, Eq, PartialOrd, Ord, Hash, Clone, Copy, Structural)]
pub struct ColorPair(i16);

impl ColorPair {
    /// Well-formedness: a pair identifier always lies in 1 to 64.
    /// Identifier 0 is reserved for the provider's built-in default pair and
    /// is unassignable, so no `ColorPair` value ever holds it.
    #[verifier::type_invariant]
    spec fn identifier_in_range(self) -> bool {
        1 <= self.0 <= 64
    }

    /// The numeric pair identifier that this value names.
    pub closed spec fn id(self) -> int {
        self.0 as int
    }

    /// Creates a new `ColorPair` given a foreground and background.
    pub fn new(fg: Color, bg: Color) -> (r: Self)
        ensures
            r.id() == spec_pair_id(fg, bg),
            1 <= r.id() <= 64,
    {
        let fgi = color_to_i16(fg);
        let bgi = color_to_i16(bg);
        ColorPair(ColorPair::fgbg_pairid(fgi, bgi))
    }

    /// The "low level" conversion using i16 values. Color pair 0 is white on
    /// black but we can't assign to it, so identifiers start at 1. Curses only
    /// assures pairs 0 through 63, so the White-on-White pair, id 64, gambles
    /// on one extra identifier being available; the alternative would be a
    /// remapping scheme that special-cases the default pair's position in the
    /// ascending sequence.
    pub fn fgbg_pairid(fg: i16, bg: i16) -> (r: i16)
        requires
            0 <= fg <= 7,
            0 <= bg <= 7,
        ensures
            r == 1 + 8 * fg + bg,
            1 <= r <= 64,
    {
        1 + (8 * fg + bg)
    }

    /// The identifier as the provider takes it.
    pub(crate) fn raw_id(self) -> (r: i16)
        ensures
            r == self.id(),
            1 <= r <= 64,
    {
        proof {
            use_type_invariant(&self);
        }
        self.0
    }
}

impl Default for ColorPair {
    /// The "default" color pair is White text on a Black background.
    ///
    /// This is a registered pair of its own, with identifier 57: it is
    /// deliberately distinct from the provider's reserved pair 0, even though
    /// both render as white on black, and client code may depend on the
    /// identifier value.
    fn default() -> (r: Self)
        ensures
            r.id() == spec_pair_id(Color::White, Color::Black),
    {
        Self::new(Color::White, Color::Black)
    }
}

/// Law: the color identity scheme is a bijection onto 1 to 64. Every
/// foreground/background combination receives an identifier in that range,
/// and distinct combinations receive distinct identifiers.
pub proof fn lemma_pair_id_bijective(fg1: Color, bg1: Color, fg2: Color, bg2: Color)
    ensures
        1 <= spec_pair_id(fg1, bg1) <= 64,
        spec_pair_id(fg1, bg1) == spec_pair_id(fg2, bg2) ==> (fg1 == fg2 && bg1 == bg2),
{
    assert(color_of(color_index(fg1)) == fg1);
    assert(color_of(color_index(bg1)) == bg1);
    assert(color_of(color_index(fg2)) == fg2);
    assert(color_of(color_index(bg2)) == bg2);
}

/// Law: the color/index conversions invert one another. Every color
/// survives the round trip through its index, and every index in 0 to 7
/// survives the round trip through its color.
pub proof fn lemma_color_conversion_identity(c: Color, i: int)
    ensures
        color_of(color_index(c)) == c,
        0 <= i <= 7 ==> color_index(color_of(i)) == i,
{
}

/// Law: a `ColorPair` is nothing but its identifier — two pairs with the
/// same identifier are the same value, so equality and ordering follow the
/// identifier.
pub proof fn lemma_pair_eq_follows_id(a: ColorPair, b: ColorPair)
    ensures
        a.id() == b.id() ==> a == b,
{
}

/// Law: the default pair's identifier is 57, never the provider's reserved
/// pair 0, and no combination at all maps to 0.
pub proof fn lemma_default_pair_distinct_from_reserved(fg: Color, bg: Color)
    ensures
        spec_pair_id(Color::White, Color::Black) == 57,
        spec_pair_id(fg, bg) != 0,
{
}

} // verus!
