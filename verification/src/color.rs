//! Styled cells and the fade arithmetic for droplet trails.
//!
//! A droplet's head glyph is drawn in a bright origin color; every other
//! glyph is drawn in the trail color with each channel scaled by the fade
//! factor `(max_length - d) / max_length`, where `d` is the distance from
//! the head. The factor is a rational with fixed positive denominator
//! `max_length`; its numerator is `fade_num`.

use vstd::prelude::*;

verus! {

/// One grid position: a glyph plus an RGB color triple.
#[derive(Clone, Copy, Debug, PartialEq, Eq, Structural)]
pub struct Cell {
    pub glyph: char,
    pub red: u8,
    pub green: u8,
    pub blue: u8,
}

/// The cell every position holds after a clear: a space with no color.
pub open spec fn blank_cell() -> Cell {
    Cell { glyph: ' ', red: 0, green: 0, blue: 0 }
}

/// Returns the blank cell that `Screen::clear` resets every position to.
pub fn make_blank_cell() -> (r: Cell)
    ensures
        r == blank_cell(),
{
    Cell { glyph: ' ', red: 0, green: 0, blue: 0 }
}

/// Numerator of the fade factor `(length - d) / length` at trail distance `d`.
pub open spec fn fade_num(length: int, d: int) -> int {
    length - d
}

/// A color channel scaled by the fade factor, rounded toward zero.
pub open spec fn fade_scaled(base: int, length: int, d: int) -> int {
    base * fade_num(length, d) / length
}

/// The red, green and blue base channels of the head (origin) color.
pub open spec fn origin_base() -> (int, int, int) {
    (200int, 255int, 200int)
}

/// The red, green and blue base channels of the trail color.
pub open spec fn trail_base() -> (int, int, int) {
    (0int, 255int, 0int)
}

/// The cell a droplet of bound `length` paints for `glyph` at distance `d`
/// from its head: the origin color at the head, the faded trail color behind.
pub open spec fn rendered_cell(glyph: char, length: int, d: int) -> Cell {
    let base = if d == 0 {
        origin_base()
    } else {
        trail_base()
    };
    Cell {
        glyph: glyph,
        red: fade_scaled(base.0, length, d) as u8,
        green: fade_scaled(base.1, length, d) as u8,
        blue: fade_scaled(base.2, length, d) as u8,
    }
}

/// A channel scaled by the fade factor stays within the channel's own range.
proof fn lemma_fade_scaled_bounds(base: int, length: int, d: int)
    requires
        0 <= base <= 255,
        1 <= length,
        0 <= d < length,
    ensures
        0 <= fade_scaled(base, length, d) <= base,
{
    assert(0 <= base * (length - d) <= base * length) by (nonlinear_arith)
        requires
            0 <= base,
            0 <= d < length,
    ;
    assert(0 <= base * (length - d) / length <= base) by (nonlinear_arith)
        requires
            1 <= length,
            0 <= base * (length - d) <= base * length,
    ;
}

/// A whole channel (fade factor one) is scaled to exactly itself.
proof fn lemma_fade_scaled_head(base: int, length: int)
    requires
        0 <= base <= 255,
        1 <= length,
    ensures
        fade_scaled(base, length, 0) == base,
{
    assert(base * length / length == base) by (nonlinear_arith)
        requires
            1 <= length,
    ;
}

/// Scales one color channel by the fade factor at distance `d`.
pub fn fade_channel(base: u8, length: u16, d: u16) -> (r: u8)
    requires
        1 <= length,
        d < length,
    ensures
        r as int == fade_scaled(base as int, length as int, d as int),
{
    proof {
        lemma_fade_scaled_bounds(base as int, length as int, d as int);
        assert((base as int) * ((length as int - d as int)) <= 255 * 0xffff) by (nonlinear_arith)
            requires
                0 <= base <= 255,
                0 <= length as int - d as int <= 0xffff,
        ;
    }
    let num: u32 = (base as u32) * ((length - d) as u32);
    (num / (length as u32)) as u8
}

/// Builds the styled cell a droplet paints for `glyph` at distance `d` from
/// its head.
pub fn styled_cell(glyph: char, length: u16, d: u16) -> (r: Cell)
    requires
        1 <= length,
        d < length,
    ensures
        r == rendered_cell(glyph, length as int, d as int),
{
    if d == 0 {
        proof {
            lemma_fade_scaled_head(200, length as int);
            lemma_fade_scaled_head(255, length as int);
        }
        Cell { glyph, red: 200, green: 255, blue: 200 }
    } else {
        let g = fade_channel(255, length, d);
        assert(fade_scaled(0, length as int, d as int) == 0);
        Cell { glyph, red: 0, green: g, blue: 0 }
    }
}

/// The fade factor `(length - d) / length` is strictly decreasing in the
/// trail distance `d`: over the common positive denominator `length`, the
/// numerator `fade_num` strictly decreases as `d` grows toward the tail.
pub proof fn lemma_fade_strictly_decreasing(length: int, d1: int, d2: int)
    requires
        1 <= length,
        0 <= d1 < d2 <= length - 1,
    ensures
        fade_num(length, d1) > fade_num(length, d2),
        fade_num(length, d2) >= 1,
{
}

/// Whenever a droplet can show a trail at all (`length > 1`), the head is
/// drawn in a different color than any trail glyph: the head keeps a red
/// channel of 200 while every trail cell's red channel is zero.
pub proof fn lemma_head_color_distinct(glyph: char, length: int, d: int)
    requires
        2 <= length,
        1 <= d < length,
    ensures
        rendered_cell(glyph, length, 0) != rendered_cell(glyph, length, d),
{
    lemma_fade_scaled_head(200, length);
    lemma_fade_scaled_bounds(0, length, d);
    assert(rendered_cell(glyph, length, 0).red == 200);
    assert(rendered_cell(glyph, length, d).red == 0);
}

} // verus!
