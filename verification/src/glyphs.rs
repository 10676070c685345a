use vstd::prelude::*;

verus! {

/// How far a glyph is turned: not at all, a quarter turn clockwise (text
/// running down the page), half a turn (upside down), or three quarters
/// (text running up the page).
#[derive(Debug, Clone, Copy, PartialEq, Eq, Structural)]
pub enum Turn {
    Upright,
    Quarter,
    Half,
    ThreeQuarters,
}

/// Where the pixel at column `x`, row `y` of a rendered glyph lands on the
/// canvas, when the glyph's origin is put at `(base_x, base_y)` turned by
/// `turn`. `left` and `top` are the glyph's placement: how far its bitmap
/// starts right of, and above, the origin.
pub open spec fn pixel_of(turn: Turn, base_x: int, base_y: int, left: int, top: int, x: int, y: int) -> (int, int) {
    match turn {
        Turn::Upright => (base_x + left + x, base_y - top + y),
        Turn::Quarter => (base_x + (top - y), base_y + left + x),
        Turn::Half => (base_x - left - x, base_y + top - y),
        Turn::ThreeQuarters => (base_x - (top - y), base_y - left - x),
    }
}

/// The canvas position of a glyph pixel.
pub fn glyph_pixel(turn: Turn, base_x: i32, base_y: i32, left: i32, top: i32, x: u32, y: u32) -> (p: (i64, i64))
    requires
        x <= i32::MAX,
        y <= i32::MAX,
    ensures
        p.0 == pixel_of(turn, base_x as int, base_y as int, left as int, top as int, x as int, y as int).0,
        p.1 == pixel_of(turn, base_x as int, base_y as int, left as int, top as int, x as int, y as int).1,
{
    let (bx, by, l, t, gx, gy) = (base_x as i64, base_y as i64, left as i64, top as i64, x as i64, y as i64);
    match turn {
        Turn::Upright => (bx + l + gx, by - t + gy),
        Turn::Quarter => (bx + (t - gy), by + l + gx),
        Turn::Half => (bx - l - gx, by + t - gy),
        Turn::ThreeQuarters => (bx - (t - gy), by - l - gx),
    }
}

/// Whether a position lies on a canvas `width` by `height`; pixels that
/// fall off are not drawn.
pub fn on_canvas(width: u32, height: u32, px: i64, py: i64) -> (b: bool)
    ensures
        b == (0 <= px < width && 0 <= py < height),
{
    px >= 0 && py >= 0 && px < width as i64 && py < height as i64
}

/// Turning a glyph never lays two of its pixels on the same spot.
pub proof fn law_turned_glyphs_keep_their_pixels_apart(
    turn: Turn,
    base_x: int,
    base_y: int,
    left: int,
    top: int,
    x1: int,
    y1: int,
    x2: int,
    y2: int,
)
    requires
        (x1, y1) != (x2, y2),
    ensures
        pixel_of(turn, base_x, base_y, left, top, x1, y1) != pixel_of(turn, base_x, base_y, left, top, x2, y2),
{
}

/// A glyph turned half round lands where the upright glyph would,
/// mirrored through its origin; one turned three quarters mirrors a quarter
/// turn the same way.
pub proof fn law_opposite_turns_mirror_through_the_origin(base_x: int, base_y: int, left: int, top: int, x: int, y: int)
    ensures
        pixel_of(Turn::Half, base_x, base_y, left, top, x, y)
            == (2 * base_x - pixel_of(Turn::Upright, base_x, base_y, left, top, x, y).0,
                2 * base_y - pixel_of(Turn::Upright, base_x, base_y, left, top, x, y).1),
        pixel_of(Turn::ThreeQuarters, base_x, base_y, left, top, x, y)
            == (2 * base_x - pixel_of(Turn::Quarter, base_x, base_y, left, top, x, y).0,
                2 * base_y - pixel_of(Turn::Quarter, base_x, base_y, left, top, x, y).1),
{
}

} // verus!
