use vstd::prelude::*;

verus! {

/// The value at `v` of the straight line through `(x0, y0)` and `(x1, y1)`,
/// rounded to the nearest integer, halves upwards.
pub open spec fn interpolate(x0: int, y0: int, x1: int, y1: int, v: int) -> int {
    y0 + (2 * (v - x0) * (y1 - y0) + (x1 - x0)) / (2 * (x1 - x0))
}

/// The tone curve applied to card art before dithering: a piecewise linear
/// curve through (0, 0), (32, 92), (64, 145), (96, 178), (128, 200),
/// (160, 218), (192, 231), (224, 242) and (255, 255), which lifts the
/// shadows so that dark art does not print as a black block.
pub open spec fn tone(v: int) -> int {
    if v <= 32 {
        interpolate(0, 0, 32, 92, v)
    } else if v <= 64 {
        interpolate(32, 92, 64, 145, v)
    } else if v <= 96 {
        interpolate(64, 145, 96, 178, v)
    } else if v <= 128 {
        interpolate(96, 178, 128, 200, v)
    } else if v <= 160 {
        interpolate(128, 200, 160, 218, v)
    } else if v <= 192 {
        interpolate(160, 218, 192, 231, v)
    } else if v <= 224 {
        interpolate(192, 231, 224, 242, v)
    } else {
        interpolate(224, 242, 255, 255, v)
    }
}

/// On one segment the rounded line runs from `y0` to `y1` and never goes
/// down.
proof fn lemma_interpolate_segment(x0: int, y0: int, x1: int, y1: int, a: int, b: int)
    requires
        x0 < x1,
        y0 <= y1,
        x0 <= a <= b <= x1,
    ensures
        interpolate(x0, y0, x1, y1, x0) == y0,
        interpolate(x0, y0, x1, y1, x1) == y1,
        y0 <= interpolate(x0, y0, x1, y1, a) <= interpolate(x0, y0, x1, y1, b) <= y1,
{
    let d = 2 * (x1 - x0);
    assert(2 * (x0 - x0) * (y1 - y0) == 0) by (nonlinear_arith);
    assert((x1 - x0) / d == 0) by (nonlinear_arith)
        requires
            d == 2 * (x1 - x0),
            x1 - x0 > 0,
    ;
    assert((2 * (x1 - x0) * (y1 - y0) + (x1 - x0)) / d == y1 - y0) by (nonlinear_arith)
        requires
            d == 2 * (x1 - x0),
            x1 - x0 > 0,
            y1 - y0 >= 0,
    ;
    assert(0 <= (2 * (a - x0) * (y1 - y0) + (x1 - x0)) / d) by (nonlinear_arith)
        requires
            d == 2 * (x1 - x0),
            x1 - x0 > 0,
            y1 - y0 >= 0,
            a - x0 >= 0,
    ;
    assert((2 * (a - x0) * (y1 - y0) + (x1 - x0)) / d <= (2 * (b - x0) * (y1 - y0) + (x1 - x0)) / d)
        by (nonlinear_arith)
        requires
            d == 2 * (x1 - x0),
            x1 - x0 > 0,
            y1 - y0 >= 0,
            a <= b,
    ;
    assert((2 * (b - x0) * (y1 - y0) + (x1 - x0)) / d <= (2 * (x1 - x0) * (y1 - y0) + (x1 - x0)) / d)
        by (nonlinear_arith)
        requires
            d == 2 * (x1 - x0),
            x1 - x0 > 0,
            y1 - y0 >= 0,
            b <= x1,
    ;
}

/// The segment of the tone curve that `v` falls on, counted from 0.
pub open spec fn segment_of(v: int) -> int {
    if v <= 32 { 0 }
    else if v <= 64 { 1 }
    else if v <= 96 { 2 }
    else if v <= 128 { 3 }
    else if v <= 160 { 4 }
    else if v <= 192 { 5 }
    else if v <= 224 { 6 }
    else { 7 }
}

/// Where each segment of the tone curve starts, on both axes.
pub open spec fn knot_x(i: int) -> int {
    if i <= 0 { 0 } else if i == 1 { 32 } else if i == 2 { 64 } else if i == 3 { 96 }
    else if i == 4 { 128 } else if i == 5 { 160 } else if i == 6 { 192 } else if i == 7 { 224 }
    else { 255 }
}

pub open spec fn knot_y(i: int) -> int {
    if i <= 0 { 0 } else if i == 1 { 92 } else if i == 2 { 145 } else if i == 3 { 178 }
    else if i == 4 { 200 } else if i == 5 { 218 } else if i == 6 { 231 } else if i == 7 { 242 }
    else { 255 }
}

/// On its own segment, the curve lies between the segment's end values, and
/// grows.
proof fn lemma_tone_on_segment(a: int, b: int)
    requires
        0 <= a <= b <= 255,
        segment_of(a) == segment_of(b),
    ensures
        knot_y(segment_of(a)) <= tone(a) <= tone(b) <= knot_y(segment_of(a) + 1),
{
    let i = segment_of(a);
    let x0 = knot_x(i);
    let x1 = knot_x(i + 1);
    let y0 = knot_y(i);
    let y1 = knot_y(i + 1);
    assert(x0 <= a && b <= x1);
    lemma_interpolate_segment(x0, y0, x1, y1, a, b);
}

/// The curve at every input lies between the values at the ends of its
/// segment.
proof fn lemma_tone_bounds(v: int)
    requires
        0 <= v <= 255,
    ensures
        knot_y(segment_of(v)) <= tone(v) <= knot_y(segment_of(v) + 1),
{
    lemma_tone_on_segment(v, v);
}

/// The tone curve never darkens a lighter pixel below a darker one.
pub proof fn law_tone_monotone(a: int, b: int)
    requires
        0 <= a <= b <= 255,
    ensures
        tone(a) <= tone(b),
{
    if segment_of(a) == segment_of(b) {
        lemma_tone_on_segment(a, b);
    } else {
        lemma_tone_bounds(a);
        lemma_tone_bounds(b);
        assert(segment_of(a) < segment_of(b));
        assert(knot_y(segment_of(a) + 1) <= knot_y(segment_of(b)));
    }
}

/// The tone curve passes through its control points: black stays black,
/// white stays white, and each listed grey maps to its listed value.
pub proof fn law_tone_control_points()
    ensures
        tone(0) == 0,
        tone(32) == 92,
        tone(64) == 145,
        tone(96) == 178,
        tone(128) == 200,
        tone(160) == 218,
        tone(192) == 231,
        tone(224) == 242,
        tone(255) == 255,
{
    assert(interpolate(0, 0, 32, 92, 0) == 0) by (nonlinear_arith);
    assert(interpolate(0, 0, 32, 92, 32) == 92) by (nonlinear_arith);
    assert(interpolate(32, 92, 64, 145, 64) == 145) by (nonlinear_arith);
    assert(interpolate(64, 145, 96, 178, 96) == 178) by (nonlinear_arith);
    assert(interpolate(96, 178, 128, 200, 128) == 200) by (nonlinear_arith);
    assert(interpolate(128, 200, 160, 218, 160) == 218) by (nonlinear_arith);
    assert(interpolate(160, 218, 192, 231, 192) == 231) by (nonlinear_arith);
    assert(interpolate(192, 231, 224, 242, 224) == 242) by (nonlinear_arith);
    assert(interpolate(224, 242, 255, 255, 255) == 255) by (nonlinear_arith);
}

/// The tone curve gives a value of a byte for every byte.
pub proof fn law_tone_in_range(v: int)
    requires
        0 <= v <= 255,
    ensures
        v <= tone(v) <= 255,
{
    lemma_tone_bounds(v);
    let i = segment_of(v);
    lemma_interpolate_segment(knot_x(i), knot_y(i), knot_x(i + 1), knot_y(i + 1), v, v);
    if i == 0 {
        assert(interpolate(0, 0, 32, 92, v) >= v) by (nonlinear_arith)
            requires
                0 <= v <= 32,
        ;
    } else if i == 7 {
        assert(interpolate(224, 242, 255, 255, v) >= v) by (nonlinear_arith)
            requires
                224 < v <= 255,
        ;
    }
}

/// The rounded line through two points at `v`, computed on bytes.
fn interpolate_u8(x0: u8, y0: u8, x1: u8, y1: u8, v: u8) -> (r: u8)
    requires
        x0 < x1,
        y0 <= y1,
        x0 <= v <= x1,
    ensures
        r == interpolate(x0 as int, y0 as int, x1 as int, y1 as int, v as int),
{
    proof {
        lemma_interpolate_segment(x0 as int, y0 as int, x1 as int, y1 as int, v as int, v as int);
    }
    let k: u32 = (v - x0) as u32;
    let dy: u32 = (y1 - y0) as u32;
    let dx: u32 = (x1 - x0) as u32;
    assert(k * dy <= 255 * 255) by (nonlinear_arith)
        requires
            k <= 255,
            dy <= 255,
    ;
    let p: u32 = k * dy;
    let q: u32 = (2 * p + dx) / (2 * dx);
    assert(2 * p == 2 * (v - x0) * (y1 - y0)) by (nonlinear_arith)
        requires
            p == k * dy,
            k == v - x0,
            dy == y1 - y0,
    ;
    assert(y0 + q <= y1);
    (y0 as u32 + q) as u8
}

/// Shapes the grey levels of card art for the printer.
pub struct CardArtPipeline {}

impl CardArtPipeline {
    /// A pipeline; it holds no state.
    pub fn new() -> (p: Self) {
        CardArtPipeline {}
    }

    /// The tone curve applied to one grey value.
    pub fn s_curve(value: u8) -> (r: u8)
        ensures
            r == tone(value as int),
    {
        if value <= 32 {
            interpolate_u8(0, 0, 32, 92, value)
        } else if value <= 64 {
            interpolate_u8(32, 92, 64, 145, value)
        } else if value <= 96 {
            interpolate_u8(64, 145, 96, 178, value)
        } else if value <= 128 {
            interpolate_u8(96, 178, 128, 200, value)
        } else if value <= 160 {
            interpolate_u8(128, 200, 160, 218, value)
        } else if value <= 192 {
            interpolate_u8(160, 218, 192, 231, value)
        } else if value <= 224 {
            interpolate_u8(192, 231, 224, 242, value)
        } else {
            interpolate_u8(224, 242, 255, 255, value)
        }
    }

    /// Applies the tone curve to every pixel of a grey image.
    pub fn apply_curve(pixels: &mut Vec<u8>)
        ensures
            final(pixels)@.len() == old(pixels)@.len(),
            forall|i: int| 0 <= i < old(pixels)@.len() ==> #[trigger] final(pixels)@[i] == tone(old(pixels)@[i] as int),
    {
        let mut i: usize = 0;
        while i < pixels.len()
            invariant
                i <= pixels@.len(),
                pixels@.len() == old(pixels)@.len(),
                forall|k: int| 0 <= k < i ==> #[trigger] pixels@[k] == tone(old(pixels)@[k] as int),
                forall|k: int| i <= k < pixels@.len() ==> #[trigger] pixels@[k] == old(pixels)@[k],
            decreases pixels@.len() - i,
        {
            let v = pixels[i];
            let t = Self::s_curve(v);
            pixels.set(i, t);
            i = i + 1;
        }
    }

    /// The printer's picture of a grey image of `width` by `height` pixels:
    /// the tone curve, then error diffusion down to pure black and white.
    pub fn process_gray(pixels: Vec<u8>, width: usize, height: usize) -> (out: Vec<u8>)
        requires
            width > 0,
            height > 0,
            pixels@.len() == width * height,
            width * height * 4 <= usize::MAX,
        ensures
            out@ == sierra_lite_one_bit(Seq::new(pixels@.len(), |i: int| tone(pixels@[i] as int) as u8), width, height),
            out@.len() == pixels@.len(),
            forall|i: int| 0 <= i < out@.len() ==> #[trigger] out@[i] == 0 || out@[i] == 255,
    {
        let mut buf = pixels;
        let ghost before = buf@;
        Self::apply_curve(&mut buf);
        proof {
            assert(buf@ == Seq::new(before.len(), |i: int| tone(before[i] as int) as u8));
        }
        dither_one_bit(&mut buf, width, height);
        buf
    }
}

/// What the `image` crate makes of encoded image bytes fitted into a box
/// of `max_width` by `max_height` (Lanczos filtering, aspect kept) and
/// turned grey: the grey pixels row by row, the width and the height; none
/// when the bytes do not decode.
pub uninterp spec fn fitted_gray(bytes: Seq<u8>, max_width: u32, max_height: u32) -> Option<(Seq<u8>, u32, u32)>;

/// Decodes image bytes with `image::load_from_memory`, fits the image into
/// a box with `DynamicImage::resize` (`FilterType::Lanczos3`), and turns it
/// grey with `grayscale().to_luma8()`. The result is named; as the crate's
/// buffers hold, there is one byte for each pixel.
#[verifier::external_body]
fn fit_gray(bytes: &[u8], max_width: u32, max_height: u32) -> (r: Option<(Vec<u8>, u32, u32)>)
    ensures
        match r {
            Some((p, w, h)) => fitted_gray(bytes@, max_width, max_height) == Some((p@, w, h)) && p@.len() == w * h,
            None => fitted_gray(bytes@, max_width, max_height) is None,
        },
{
    let image = image::load_from_memory(bytes).ok()?;
    let grey = image.resize(max_width, max_height, image::imageops::FilterType::Lanczos3).grayscale().to_luma8();
    let (w, h) = (grey.width(), grey.height());
    Some((grey.into_raw(), w, h))
}

impl CardArtPipeline {
    /// The printer's picture of encoded card art fitted into a box of
    /// `max_width` by `max_height`: the grey pixels after the tone curve and
    /// dithering, with the width and height; none when the art does not
    /// decode or comes out empty.
    pub fn process(bytes: &[u8], max_width: u32, max_height: u32) -> (r: Option<(Vec<u8>, u32, u32)>)
        ensures
            match fitted_gray(bytes@, max_width, max_height) {
                Some((p, w, h)) => if w > 0 && h > 0 && w * h * 4 <= usize::MAX {
                    r matches Some((out, rw, rh)) && rw == w && rh == h
                        && out@ == sierra_lite_one_bit(Seq::new(p.len(), |i: int| tone(p[i] as int) as u8), w as usize, h as usize)
                } else {
                    r is None
                },
                None => r is None,
            },
    {
        match fit_gray(bytes, max_width, max_height) {
            Some((pixels, w, h)) => {
                let wide = w as usize;
                let high = h as usize;
                proof {
                    assert((w as u128) * (h as u128) <= 0xffff_ffffu128 * 0xffff_ffffu128) by (nonlinear_arith)
                        requires
                            w <= 0xffff_ffffu32,
                            h <= 0xffff_ffffu32,
                    ;
                }
                if w > 0 && h > 0 && (w as u128) * (h as u128) * 4 <= usize::MAX as u128 {
                    assert(wide * high == w * h);
                    Some((Self::process_gray(pixels, wide, high), w, h))
                } else {
                    None
                }
            },
            None => None,
        }
    }
}

/// What `dithr`'s Sierra Lite error diffusion makes of a grey image of
/// `width` by `height` pixels, quantized to one bit.
pub uninterp spec fn sierra_lite_one_bit(pixels: Seq<u8>, width: usize, height: usize) -> Seq<u8>;

/// Dithers a grey image in place with `dithr::diffusion::sierra_lite_in_place`
/// at one bit of grey (`QuantizeMode::gray_bits(1)`). The `requires` are
/// those under which `dithr` accepts the buffer; its source then writes every
/// pixel as 0 or 255 and leaves the length alone. What the pixels become is
/// named, not stated.
#[verifier::external_body]
fn dither_one_bit(pixels: &mut Vec<u8>, width: usize, height: usize)
    requires
        width > 0,
        height > 0,
        old(pixels)@.len() == width * height,
        width * height * 4 <= usize::MAX,
    ensures
        final(pixels)@ == sierra_lite_one_bit(old(pixels)@, width, height),
        final(pixels)@.len() == old(pixels)@.len(),
        forall|i: int| 0 <= i < final(pixels)@.len() ==> #[trigger] final(pixels)@[i] == 0 || final(pixels)@[i] == 255,
{
    let mut buffer = dithr::gray_u8(pixels.as_mut_slice(), width, height, width).expect("valid grayscale image");
    let quantize = dithr::QuantizeMode::gray_bits(1).expect("1-bit quantization");
    dithr::diffusion::sierra_lite_in_place(&mut buffer, quantize).expect("Sierra Lite dithering failed");
}

} // verus!
