use vstd::prelude::*;

use crate::text::views;
use crate::wrap::{deterministic, predicate_of, wrap_text, wrapped_lines};

verus! {

/// A width of text measured in pixels: its whole part and whether a
/// fraction of a pixel is left over. Every decision on widths compares them
/// with whole numbers of pixels, for which this is all that counts.
#[derive(Debug, Clone, Copy, PartialEq, Eq, Structural)]
pub struct Extent {
    pub whole: u32,
    pub partial: bool,
}

/// Whether a width is more than `limit` pixels.
pub open spec fn exceeds(e: Extent, limit: int) -> bool {
    e.whole > limit || (e.whole == limit && e.partial)
}

impl Extent {
    /// Whether the width is more than `limit` pixels.
    pub fn exceeds(&self, limit: i64) -> (b: bool)
        ensures
            b == exceeds(*self, limit as int),
    {
        (self.whole as i64) > limit || ((self.whole as i64) == limit && self.partial)
    }

    /// Half the width, rounded to the nearest pixel, halves away from zero.
    pub fn half_rounded(&self) -> (h: u32)
        ensures
            h == half_rounded(*self),
    {
        ((self.whole as u64 + 1) / 2) as u32
    }
}

/// Half a width, rounded to the nearest pixel, halves away from zero: the
/// fraction never reaches the next half pixel, so only the whole part counts.
pub open spec fn half_rounded(e: Extent) -> int {
    (e.whole + 1) / 2
}

/// The distance between the baselines of two lines of text set at
/// `font_size` half pixels: a line and a quarter, rounded to the nearest
/// pixel (halves away from zero), and no more than the largest `i32`.
pub open spec fn line_height_of(font_size: u32) -> int {
    let h = (5 * font_size + 4) / 8;
    if h > i32::MAX {
        i32::MAX as int
    } else {
        h
    }
}

/// The distance between the baselines of two lines of text.
pub fn line_height(font_size: u32) -> (h: i32)
    ensures
        h == line_height_of(font_size),
{
    let h: u64 = (5 * (font_size as u64) + 4) / 8;
    if h > i32::MAX as u64 {
        i32::MAX
    } else {
        h as i32
    }
}

/// The baselines of `n` lines that start at `origin`, `step` apart.
pub open spec fn baselines(origin: int, step: int, n: nat) -> Seq<int> {
    Seq::new(n, |i: int| origin + i * step)
}

/// The baseline after a block of `n` lines that starts at `origin`.
pub open spec fn block_end_of(origin: int, font_size: u32, n: nat) -> int {
    origin + n * line_height_of(font_size)
}

proof fn lemma_steps_bounded(i: int, n: int, step: int)
    requires
        0 <= i < n,
        step >= 0,
    ensures
        i * step <= (i + 1) * step <= n * step,
        (i + 1) * step == i * step + step,
{
    assert((i + 1) * step <= n * step) by (nonlinear_arith)
        requires
            0 <= i < n,
            step >= 0,
    ;
    assert((i + 1) * step == i * step + step) by (nonlinear_arith);
}

/// Where the baselines of `count` lines set at `font_size` fall when the
/// first is at `origin`.
pub fn place_lines(count: usize, origin: i32, font_size: u32) -> (ys: Vec<i32>)
    requires
        block_end_of(origin as int, font_size, count as nat) <= i32::MAX,
    ensures
        ys@.len() == count,
        forall|i: int| 0 <= i < count ==> #[trigger] ys@[i] == origin + i * line_height_of(font_size),
{
    let step = line_height(font_size);
    let mut ys: Vec<i32> = Vec::new();
    let mut y: i32 = origin;
    let mut i: usize = 0;
    while i < count
        invariant
            i <= count,
            step == line_height_of(font_size),
            step >= 0,
            origin + count * step <= i32::MAX,
            y == origin + i * step,
            ys@.len() == i,
            forall|k: int| 0 <= k < i ==> #[trigger] ys@[k] == origin + k * step,
        decreases count - i,
    {
        ys.push(y);
        proof {
            lemma_steps_bounded(i as int, count as int, step as int);
        }
        if i + 1 < count {
            y = y + step;
        } else {
            assert(y + step <= i32::MAX);
            y = y + step;
        }
        i = i + 1;
    }
    ys
}

/// The baseline after a block of `count` lines set at `font_size` whose
/// first line is at `origin`: where the next piece of text goes.
pub fn block_end(count: usize, origin: i32, font_size: u32) -> (end: i32)
    requires
        block_end_of(origin as int, font_size, count as nat) <= i32::MAX,
    ensures
        end == block_end_of(origin as int, font_size, count as nat),
{
    let step = line_height(font_size) as i64;
    if step == 0 {
        proof {
            let lh = line_height_of(font_size);
            assert(count * lh == 0) by (nonlinear_arith)
                requires
                    lh == 0,
            ;
        }
        return origin;
    }
    proof {
        assert(count <= count * step) by (nonlinear_arith)
            requires
                step >= 1,
        ;
    }
    let n = count as i64;
    proof {
        assert(n == count);
        assert(n * step >= 0) by (nonlinear_arith)
            requires
                step >= 0,
                n >= 0,
        ;
        let lh = line_height_of(font_size);
        assert(n * step == count * lh) by (nonlinear_arith)
            requires
                n == count,
                step == lh,
        ;
    }
    (origin as i64 + n * step) as i32
}

/// A piece of text laid out in lines: the lines and their baselines, and
/// the baseline after the last line.
#[derive(Debug, Clone)]
pub struct TextBlock {
    pub lines: Vec<String>,
    pub baselines: Vec<i32>,
    pub end: i32,
}

/// Lays `text` out from `origin` as drawing does: it is cut into lines (at
/// each newline, and where `too_wide` rejects a longer line), the lines are
/// one line height apart, and the block ends one line height after the
/// last.
pub fn layout_text<F: Fn(&str) -> bool>(text: &str, origin: i32, font_size: u32, too_wide: F) -> (b: TextBlock)
    requires
        forall|x: &str| call_requires(too_wide, (x,)),
        deterministic(too_wide),
        block_end_of(origin as int, font_size, wrapped_lines(text@, predicate_of(too_wide)).len()) <= i32::MAX,
    ensures
        views(b.lines@) == wrapped_lines(text@, predicate_of(too_wide)),
        b.baselines@.len() == b.lines@.len(),
        forall|i: int| 0 <= i < b.lines@.len() ==> #[trigger] b.baselines@[i] == origin + i * line_height_of(font_size),
        b.end == block_end_of(origin as int, font_size, b.lines@.len()),
{
    let lines = wrap_text(text, too_wide);
    proof {
        assert(views(lines@).len() == lines@.len());
    }
    let ys = place_lines(lines.len(), origin, font_size);
    let end = block_end(lines.len(), origin, font_size);
    TextBlock { lines, baselines: ys, end }
}

/// How many lines `text` takes once wrapped.
pub fn wrapped_line_count<F: Fn(&str) -> bool>(text: &str, too_wide: F) -> (n: usize)
    requires
        forall|x: &str| call_requires(too_wide, (x,)),
        deterministic(too_wide),
    ensures
        n == wrapped_lines(text@, predicate_of(too_wide)).len(),
{
    let lines = wrap_text(text, too_wide);
    proof {
        assert(views(lines@).len() == lines@.len());
    }
    lines.len()
}

/// The height that `text` takes once wrapped: its count of lines times the
/// line height at `font_size`.
pub fn wrapped_text_height<F: Fn(&str) -> bool>(text: &str, font_size: u32, too_wide: F) -> (h: i32)
    requires
        forall|x: &str| call_requires(too_wide, (x,)),
        deterministic(too_wide),
        wrapped_lines(text@, predicate_of(too_wide)).len() * line_height_of(font_size) <= i32::MAX,
    ensures
        h == wrapped_lines(text@, predicate_of(too_wide)).len() * line_height_of(font_size),
{
    let count = wrapped_line_count(text, too_wide);
    block_end(count, 0, font_size)
}

/// Lines set at a size with a positive line height never overlap: each
/// baseline lies below the one before, and the block ends below its last
/// line.
pub proof fn law_lines_go_down(origin: int, font_size: u32, n: nat, i: int, j: int)
    requires
        line_height_of(font_size) > 0,
        0 <= i < j < n,
    ensures
        baselines(origin, line_height_of(font_size), n)[i] < baselines(origin, line_height_of(font_size), n)[j],
        baselines(origin, line_height_of(font_size), n)[j] < block_end_of(origin, font_size, n),
{
    let h = line_height_of(font_size);
    assert(i * h < j * h) by (nonlinear_arith)
        requires
            h > 0,
            i < j,
    ;
    assert(j * h < n * h) by (nonlinear_arith)
        requires
            h > 0,
            j < n,
    ;
}

} // verus!
