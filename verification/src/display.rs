//! The display surface as the editor sees it: a fixed grid of colored
//! character cells, written through a list of plot commands.

use vstd::prelude::*;

verus! {

/// Width of the character display, in cells.
pub const BUFFER_WIDTH: usize = 80;

/// Height of the character display, in cells.
pub const BUFFER_HEIGHT: usize = 25;

/// The colors the editor draws with, a subset of the display's palette.
#[derive(Clone, Copy, PartialEq, Eq, Structural, Debug)]
pub enum TextColor {
    Black,
    White,
    Cyan,
}

/// One write to the display: a glyph at a cell, with its color pair.
#[derive(Clone, Copy, PartialEq, Eq, Structural, Debug)]
pub struct PlotCmd {
    pub glyph: char,
    pub x: usize,
    pub y: usize,
    pub fg: TextColor,
    pub bg: TextColor,
}

/// A plot command at mathematical coordinates; meaningful when the
/// coordinates fit the display.
pub open spec fn plot_at(glyph: char, x: int, y: int, fg: TextColor, bg: TextColor) -> PlotCmd {
    PlotCmd { glyph, x: x as usize, y: y as usize, fg, bg }
}

/// Relies on num's `Integer::mod_floor` for `usize`, whose body is
/// `*self % *other`; it panics when the modulus is zero.
#[verifier::external_body]
fn mod_floor_usize(a: usize, m: usize) -> (r: usize)
    requires
        m > 0,
    ensures
        r == a as int % m as int,
{
    num::Integer::mod_floor(&a, &m)
}

/// The sum of `a` and `b`, reduced modulo `LIMIT`: the wraparound scheme
/// by which on-display columns are computed, total for every sum that
/// fits in `usize` even when it nominally exceeds the display width.
pub fn safe_add<const LIMIT: usize>(a: usize, b: usize) -> (r: usize)
    requires
        LIMIT > 0,
        a + b <= usize::MAX,
    ensures
        r == (a + b) % (LIMIT as int),
        r < LIMIT,
{
    mod_floor_usize(a + b, LIMIT)
}

/// Whether the display can render `c` as a glyph: its code point,
/// truncated to a byte, lies in the printable ASCII range.
pub open spec fn drawable(c: char) -> bool {
    0x20 <= (c as u8) <= 0x7e
}

/// Whether the display driver can render `c` as a glyph, decided exactly
/// as [`drawable`] states.
pub fn is_drawable(c: char) -> (r: bool)
    ensures
        r == drawable(c),
{
    let b = #[verifier::truncate] (c as u8);
    0x20 <= b && b <= 0x7e
}

} // verus!
