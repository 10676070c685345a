use vstd::prelude::*;

use crate::layout::BorderPathLayout;
use crate::typeset::{exceeds, Extent};

verus! {

/// The size of a card and the margin kept along its border when text is
/// wrapped round it.
#[derive(Debug, Clone, Copy, PartialEq, Eq, Structural)]
pub struct BorderWrapConfig {
    pub card_width: i32,
    pub card_height: i32,
    pub border_margin: i32,
}

impl BorderWrapConfig {
    /// A configuration of the three values.
    pub fn new(card_width: i32, card_height: i32, border_margin: i32) -> (c: Self)
        ensures
            c == (BorderWrapConfig { card_width, card_height, border_margin }),
    {
        BorderWrapConfig { card_width, card_height, border_margin }
    }
}

/// How far along the path round the border each stretch ends: up the left
/// edge, along the top, down the right edge, back along the bottom, and up
/// the left edge again.
#[derive(Debug, Clone, Copy, PartialEq, Eq, Structural)]
pub struct Corners {
    pub top_left: i64,
    pub top_right: i64,
    pub bottom_right: i64,
    pub bottom_left: i64,
    pub end: i64,
}

/// The corners of the path `p`: each stretch as long as the distance
/// between its two ends.
pub open spec fn corners_of(p: BorderPathLayout) -> Corners {
    let c1 = p.left_side_bottom_y - p.left_side_top_y;
    let c2 = c1 + (p.top_end_x - p.top_start_x);
    let c3 = c2 + (p.right_side_bottom_y - p.right_side_top_y);
    let c4 = c3 + (p.bottom_x_start - p.bottom_x_end);
    let c5 = c4 + (p.left_side_return_bottom_y - p.left_side_return_top_y);
    Corners { top_left: c1 as i64, top_right: c2 as i64, bottom_right: c3 as i64, bottom_left: c4 as i64, end: c5 as i64 }
}

/// Which way a glyph faces on the border.
#[derive(Debug, Clone, Copy, PartialEq, Eq, Structural)]
pub enum Side {
    /// Up the left edge, turned a quarter to the left.
    Left,
    /// Along the top, upright.
    Top,
    /// Down the right edge, turned a quarter to the right.
    Right,
    /// Back along the bottom, upside down.
    Bottom,
    /// Up the left edge again, below the start, turned a quarter to the left.
    LeftReturn,
}

/// Where a glyph is drawn on the border, and which way it faces.
#[derive(Debug, Clone, Copy, PartialEq, Eq, Structural)]
pub struct GlyphSpot {
    pub side: Side,
    pub x: i32,
    pub y: i32,
}

/// The spot of a glyph `d` pixels along the path (its whole pixels), when
/// the path is not yet used up.
pub open spec fn spot_at(p: BorderPathLayout, d: int) -> Option<GlyphSpot> {
    let c = corners_of(p);
    if d >= c.end {
        None
    } else if d < c.top_left {
        Some(GlyphSpot { side: Side::Left, x: p.left_x, y: (p.left_side_bottom_y - d) as i32 })
    } else if d < c.top_right {
        Some(GlyphSpot { side: Side::Top, x: (p.top_start_x + (d - c.top_left)) as i32, y: p.top_y })
    } else if d < c.bottom_right {
        Some(GlyphSpot { side: Side::Right, x: p.right_x, y: (p.right_side_top_y + (d - c.top_right)) as i32 })
    } else if d < c.bottom_left {
        Some(GlyphSpot { side: Side::Bottom, x: (p.bottom_x_start - (d - c.bottom_right)) as i32, y: p.bottom_y })
    } else {
        Some(GlyphSpot { side: Side::LeftReturn, x: p.left_x, y: (p.left_side_return_bottom_y - (d - c.bottom_left)) as i32 })
    }
}

/// The stretches of a path have lengths that fit `i32`, so that every
/// distance along it does too.
pub open spec fn path_fits(p: BorderPathLayout) -> bool {
    let c = corners_of(p);
    &&& 0 <= p.left_side_bottom_y - p.left_side_top_y
    &&& 0 <= p.top_end_x - p.top_start_x
    &&& 0 <= p.right_side_bottom_y - p.right_side_top_y
    &&& 0 <= p.bottom_x_start - p.bottom_x_end
    &&& 0 <= p.left_side_return_bottom_y - p.left_side_return_top_y
    &&& (p.left_side_bottom_y - p.left_side_top_y) + (p.top_end_x - p.top_start_x)
        + (p.right_side_bottom_y - p.right_side_top_y) + (p.bottom_x_start - p.bottom_x_end)
        + (p.left_side_return_bottom_y - p.left_side_return_top_y) <= i32::MAX
}

/// The point `d` pixels along a stretch that starts at `a` and runs towards
/// larger (`up`) or smaller numbers fits `i32` whenever both ends do.
pub open spec fn spots_fit(p: BorderPathLayout) -> bool {
    &&& p.left_side_bottom_y - (p.left_side_bottom_y - p.left_side_top_y) >= i32::MIN
    &&& p.bottom_x_start - (p.bottom_x_start - p.bottom_x_end) >= i32::MIN
    &&& p.left_side_return_bottom_y - (p.left_side_return_bottom_y - p.left_side_return_top_y) >= i32::MIN
}

/// Text wrapped round the border of a card along a path.
pub struct BorderPath;

impl BorderPath {
    /// The corners of the path.
    pub fn corners(p: &BorderPathLayout) -> (c: Corners)
        requires
            path_fits(*p),
        ensures
            c == corners_of(*p),
    {
        let c1: i64 = p.left_side_bottom_y as i64 - p.left_side_top_y as i64;
        let c2: i64 = c1 + (p.top_end_x as i64 - p.top_start_x as i64);
        let c3: i64 = c2 + (p.right_side_bottom_y as i64 - p.right_side_top_y as i64);
        let c4: i64 = c3 + (p.bottom_x_start as i64 - p.bottom_x_end as i64);
        let c5: i64 = c4 + (p.left_side_return_bottom_y as i64 - p.left_side_return_top_y as i64);
        Corners { top_left: c1, top_right: c2, bottom_right: c3, bottom_left: c4, end: c5 }
    }

    /// Where the glyph `d` whole pixels along the path goes; none once the
    /// path is used up.
    pub fn spot(p: &BorderPathLayout, d: i64) -> (s: Option<GlyphSpot>)
        requires
            path_fits(*p),
            0 <= d,
        ensures
            s == spot_at(*p, d as int),
    {
        let c = Self::corners(p);
        if d >= c.end {
            None
        } else if d < c.top_left {
            Some(GlyphSpot { side: Side::Left, x: p.left_x, y: (p.left_side_bottom_y as i64 - d) as i32 })
        } else if d < c.top_right {
            Some(GlyphSpot { side: Side::Top, x: (p.top_start_x as i64 + (d - c.top_left)) as i32, y: p.top_y })
        } else if d < c.bottom_right {
            Some(GlyphSpot { side: Side::Right, x: p.right_x, y: (p.right_side_top_y as i64 + (d - c.top_right)) as i32 })
        } else if d < c.bottom_left {
            Some(GlyphSpot { side: Side::Bottom, x: (p.bottom_x_start as i64 - (d - c.bottom_right)) as i32, y: p.bottom_y })
        } else {
            Some(GlyphSpot {
                side: Side::LeftReturn,
                x: p.left_x,
                y: (p.left_side_return_bottom_y as i64 - (d - c.bottom_left)) as i32,
            })
        }
    }

    /// Where a word that starts at `at` and would end at `word_end` starts
    /// instead: a word that would run round a corner starts at that corner.
    pub fn word_start(c: &Corners, at: Extent, word_end: Extent) -> (r: Option<i64>)
        ensures
            r == jump_of(*c, at, word_end),
    {
        let d = at.whole as i64;
        if d < c.top_left && word_end.exceeds(c.top_left) {
            Some(c.top_left)
        } else if d >= c.top_left && d < c.top_right && word_end.exceeds(c.top_right) {
            Some(c.top_right)
        } else if d >= c.top_right && d < c.bottom_right && word_end.exceeds(c.bottom_right) {
            Some(c.bottom_right)
        } else if d >= c.bottom_right && d < c.bottom_left && word_end.exceeds(c.bottom_left) {
            Some(c.bottom_left)
        } else {
            None
        }
    }

    /// Whether a distance is exactly a corner, where no space is added
    /// after a word.
    pub fn at_corner(c: &Corners, at: Extent) -> (b: bool)
        ensures
            b == at_corner_of(*c, at),
    {
        !at.partial && {
            let d = at.whole as i64;
            d == c.top_left || d == c.top_right || d == c.bottom_right || d == c.bottom_left
        }
    }
}

/// The corner that a word starting at `at` and ending at `word_end` runs
/// round, if any: the first of them whose stretch the word starts on and
/// runs past.
pub open spec fn jump_of(c: Corners, at: Extent, word_end: Extent) -> Option<i64> {
    let d = at.whole as int;
    if d < c.top_left && exceeds(word_end, c.top_left as int) {
        Some(c.top_left)
    } else if c.top_left <= d < c.top_right && exceeds(word_end, c.top_right as int) {
        Some(c.top_right)
    } else if c.top_right <= d < c.bottom_right && exceeds(word_end, c.bottom_right as int) {
        Some(c.bottom_right)
    } else if c.bottom_right <= d < c.bottom_left && exceeds(word_end, c.bottom_left as int) {
        Some(c.bottom_left)
    } else {
        None
    }
}

/// Whether a distance is exactly at one of the four corners.
pub open spec fn at_corner_of(c: Corners, at: Extent) -> bool {
    !at.partial && (at.whole == c.top_left || at.whole == c.top_right || at.whole == c.bottom_right
        || at.whole == c.bottom_left)
}

/// Along each stretch, glyphs further along the path sit further along the
/// stretch: up the left edge (smaller `y`), to the right along the top,
/// down the right edge, to the left along the bottom.
pub proof fn law_spots_follow_the_path(p: BorderPathLayout, a: int, b: int)
    requires
        path_fits(p),
        0 <= a < b,
        spot_at(p, b) is Some,
        spot_at(p, a)->0.side == spot_at(p, b)->0.side,
        spots_fit(p),
    ensures
        spot_at(p, a) is Some,
        spot_at(p, a)->0.side == Side::Left ==> spot_at(p, b)->0.y < spot_at(p, a)->0.y,
        spot_at(p, a)->0.side == Side::Top ==> spot_at(p, a)->0.x < spot_at(p, b)->0.x,
        spot_at(p, a)->0.side == Side::Right ==> spot_at(p, a)->0.y < spot_at(p, b)->0.y,
        spot_at(p, a)->0.side == Side::Bottom ==> spot_at(p, b)->0.x < spot_at(p, a)->0.x,
        spot_at(p, a)->0.side == Side::LeftReturn ==> spot_at(p, b)->0.y < spot_at(p, a)->0.y,
{
}

/// A word only ever jumps forward, to the corner ahead of it.
pub proof fn law_words_jump_forward(c: Corners, at: Extent, word_end: Extent)
    ensures
        jump_of(c, at, word_end) matches Some(corner) ==> at.whole < corner && exceeds(word_end, corner as int),
{
}

/// A word never runs round a corner: on a path whose corners come in order,
/// a word that starts on the stretch ending at a corner and reaches past that
/// corner starts at the corner instead, for each of the four corners.
pub proof fn law_words_leap_the_corner_they_would_run_round(c: Corners, at: Extent, word_end: Extent)
    requires
        0 <= c.top_left <= c.top_right <= c.bottom_right <= c.bottom_left,
    ensures
        at.whole < c.top_left && exceeds(word_end, c.top_left as int) ==> jump_of(c, at, word_end) == Some(
            c.top_left,
        ),
        c.top_left <= at.whole < c.top_right && exceeds(word_end, c.top_right as int) ==> jump_of(c, at, word_end)
            == Some(c.top_right),
        c.top_right <= at.whole < c.bottom_right && exceeds(word_end, c.bottom_right as int) ==> jump_of(
            c,
            at,
            word_end,
        ) == Some(c.bottom_right),
        c.bottom_right <= at.whole < c.bottom_left && exceeds(word_end, c.bottom_left as int) ==> jump_of(
            c,
            at,
            word_end,
        ) == Some(c.bottom_left),
{
}

} // verus!
