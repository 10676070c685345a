use momir_oracle::art::CardArtPipeline;
use momir_oracle::border::{BorderPath, BorderWrapConfig, GlyphSpot, Side};
use momir_oracle::glyphs::{glyph_pixel, on_canvas, Turn};
use momir_oracle::layout::{BorderPathLayout, Font, Layout, NameStyle, TextStyle, WrapStyle};
use momir_oracle::typeset::{block_end, layout_text, line_height, place_lines, wrapped_line_count, wrapped_text_height, Extent};
use momir_oracle::wrap::wrap_text;

fn ext(whole: u32, partial: bool) -> Extent {
    Extent { whole, partial }
}

/// A stand-in for font measurement: every character is ten pixels wide.
fn ten_px(limit: usize) -> impl Fn(&str) -> bool {
    move |s: &str| s.chars().count() * 10 > limit
}

#[test]
fn default_layout_values() {
    let l = Layout::default();
    assert_eq!((l.width, l.height), (416, 576));
    assert_eq!(l.name.font_size, 68);
    assert_eq!(l.name.long_text_font_size, Some(44));
    assert_eq!(l.name.font, Font::Serif);
    assert_eq!(l.cost.margin_right, 26);
    assert_eq!(l.rules.y, 344);
    assert_eq!(l.art.max_width, 300);
    assert_eq!(l.border_path.bottom_threshold(), 1170);
    assert_eq!(TextStyle::default().wrap_width, 372);
    assert_eq!(BorderPathLayout::default().right_x, 390);
}

#[test]
fn wrap_adjustments_move_the_text_inwards() {
    let mut l = Layout::default();
    WrapStyle::SemiWrap.apply_layout_adjustments(&mut l);
    assert_eq!((l.type_line.x, l.rules.x, l.cost.margin_right, l.rules.wrap_width), (35, 35, 35, 350));
    let once = l;
    WrapStyle::SemiWrap.apply_layout_adjustments(&mut l);
    assert_eq!(l, once);

    let mut f = Layout::default();
    WrapStyle::FullWrap.apply_layout_adjustments(&mut f);
    assert_eq!(f.rules.font_size, 30);
    assert_eq!(f.rules.letter_spacing, 3);
    assert_eq!((f.set_icon.x, f.set_icon.y), (43, 468));
    assert_eq!((f.artist.x, f.artist.y, f.artist.font_size), (130, 530, 28));
    assert_eq!((f.pow_tough_style.x, f.pow_tough_style.y), (330, 530));

    let mut s = Layout::default();
    WrapStyle::Standard.apply_layout_adjustments(&mut s);
    assert_eq!(s, Layout::default());
}

#[test]
fn name_adjustment_and_order() {
    let mut a = Layout::default();
    NameStyle::LongName.apply_layout_adjustments(&mut a);
    assert_eq!((a.name.font_size, a.name.letter_spacing), (44, 2));
    WrapStyle::FullWrap.apply_layout_adjustments(&mut a);
    let mut b = Layout::default();
    WrapStyle::FullWrap.apply_layout_adjustments(&mut b);
    NameStyle::LongName.apply_layout_adjustments(&mut b);
    assert_eq!(a, b);
}

#[test]
fn line_heights_round_half_up() {
    assert_eq!(line_height(32), 20);
    assert_eq!(line_height(30), 19);
    assert_eq!(line_height(28), 18);
    assert_eq!(line_height(0), 0);
    assert_eq!(line_height(u32::MAX), i32::MAX);
    for hp in 0u32..200 {
        let px = hp as f32 / 2.0;
        assert_eq!(line_height(hp), (px * 1.25).round() as i32);
    }
}

#[test]
fn lines_are_placed_one_line_height_apart() {
    assert_eq!(place_lines(3, 100, 32), vec![100, 120, 140]);
    assert_eq!(block_end(3, 100, 32), 160);
    assert_eq!(wrapped_text_height("a\nb\nc\nd", 32, ten_px(100)), 80);
}

#[test]
fn wrapping_keeps_words_and_newlines() {
    let lines = wrap_text("Flying, vigilance\nWhen this enters, draw a card.", ten_px(100));
    assert_eq!(lines, vec!["Flying,", "vigilance", "When this", "enters,", "draw a", "card."]);
    let rejoined: Vec<String> = lines.join(" ").split_whitespace().map(|w| w.to_string()).collect();
    let words: Vec<String> = "Flying, vigilance\nWhen this enters, draw a card.".split_whitespace().map(|w| w.to_string()).collect();
    assert_eq!(rejoined, words);
    assert_eq!(wrap_text("a\n\nb", ten_px(100)), vec!["a", "", "b"]);
    assert_eq!(wrap_text("", ten_px(100)), vec![""]);
    assert_eq!(wrap_text("averyveryverylongword x", ten_px(50)), vec!["averyveryverylongword", "x"]);
    assert_eq!(wrapped_line_count("a\n\nb", ten_px(100)), 3);
}

#[test]
fn a_block_of_text_ends_below_its_last_line() {
    let b = layout_text("one two three", 50, 32, ten_px(70));
    assert_eq!(b.lines, vec!["one two", "three"]);
    assert_eq!(b.baselines, vec![50, 70]);
    assert_eq!(b.end, 90);
}

#[test]
fn widths_compare_with_whole_pixels() {
    assert!(ext(120, true).exceeds(120));
    assert!(!ext(120, false).exceeds(120));
    assert!(ext(121, false).exceeds(120));
    assert!(!ext(119, true).exceeds(120));
    assert_eq!(ext(7, false).half_rounded(), 4);
    assert_eq!(ext(7, true).half_rounded(), 4);
    assert_eq!(ext(6, true).half_rounded(), 3);
    for whole in 0u32..50 {
        for frac in [0.0f32, 0.25, 0.5, 0.75, 0.99] {
            let w = whole as f32 + frac;
            assert_eq!(ext(whole, frac > 0.0).half_rounded() as i32, (w / 2.0).round() as i32);
        }
    }
}

#[test]
fn border_path_corners_and_spots() {
    let p = BorderPathLayout::default();
    let c = BorderPath::corners(&p);
    assert_eq!((c.top_left, c.top_right, c.bottom_right, c.bottom_left, c.end), (305, 660, 1170, 1520, 1695));
    assert_eq!(BorderPath::spot(&p, 0), Some(GlyphSpot { side: Side::Left, x: 20, y: 330 }));
    assert_eq!(BorderPath::spot(&p, 10), Some(GlyphSpot { side: Side::Left, x: 20, y: 320 }));
    assert_eq!(BorderPath::spot(&p, 305), Some(GlyphSpot { side: Side::Top, x: 25, y: 28 }));
    assert_eq!(BorderPath::spot(&p, 700), Some(GlyphSpot { side: Side::Right, x: 390, y: 65 }));
    assert_eq!(BorderPath::spot(&p, 1200), Some(GlyphSpot { side: Side::Bottom, x: 345, y: 546 }));
    assert_eq!(BorderPath::spot(&p, 1600), Some(GlyphSpot { side: Side::LeftReturn, x: 20, y: 455 }));
    assert_eq!(BorderPath::spot(&p, 1695), None);
}

#[test]
fn words_jump_corners_they_would_run_round() {
    let c = BorderPath::corners(&BorderPathLayout::default());
    assert_eq!(BorderPath::word_start(&c, ext(290, true), ext(310, false)), Some(305));
    assert_eq!(BorderPath::word_start(&c, ext(290, true), ext(305, false)), None);
    assert_eq!(BorderPath::word_start(&c, ext(305, false), ext(400, false)), None);
    assert_eq!(BorderPath::word_start(&c, ext(650, false), ext(661, false)), Some(660));
    assert_eq!(BorderPath::word_start(&c, ext(1600, false), ext(1800, false)), None);
    assert!(BorderPath::at_corner(&c, ext(660, false)));
    assert!(!BorderPath::at_corner(&c, ext(660, true)));
    assert!(!BorderPath::at_corner(&c, ext(661, false)));
    assert_eq!(BorderWrapConfig::new(416, 576, 12), BorderWrapConfig { card_width: 416, card_height: 576, border_margin: 12 });
}

#[test]
fn s_curve_matches_the_float_curve() {
    const POINTS: &[(u8, u8)] = &[(0, 0), (32, 92), (64, 145), (96, 178), (128, 200), (160, 218), (192, 231), (224, 242), (255, 255)];
    let _pipeline = CardArtPipeline::new();
    for v in 0..=255u8 {
        let value = v as f32;
        let mut expected = 255u8;
        for w in POINTS.windows(2) {
            let (x0, y0) = w[0];
            let (x1, y1) = w[1];
            if value <= x1 as f32 {
                let t = (value - x0 as f32) / (x1 as f32 - x0 as f32);
                expected = (y0 as f32 + t * (y1 as f32 - y0 as f32)).round() as u8;
                break;
            }
        }
        assert_eq!(CardArtPipeline::s_curve(v), expected, "value {v}");
    }
    for w in POINTS {
        assert_eq!(CardArtPipeline::s_curve(w.0), w.1);
    }
    for v in 1..=255u8 {
        assert!(CardArtPipeline::s_curve(v - 1) <= CardArtPipeline::s_curve(v));
    }
}

#[test]
fn art_is_curved_then_dithered_to_black_and_white() {
    let mut pixels = vec![0u8, 32, 64, 255];
    CardArtPipeline::apply_curve(&mut pixels);
    assert_eq!(pixels, vec![0, 92, 145, 255]);
    let grey: Vec<u8> = (0..64u32).map(|i| (i * 4) as u8).collect();
    let out = CardArtPipeline::process_gray(grey.clone(), 8, 8);
    assert_eq!(out.len(), 64);
    assert!(out.iter().all(|&p| p == 0 || p == 255));
    assert!(out.iter().any(|&p| p == 0));
    assert!(out.iter().any(|&p| p == 255));
    assert_ne!(out, grey);
    assert_eq!(CardArtPipeline::process_gray(vec![255; 4], 2, 2), vec![255; 4]);
    assert_eq!(CardArtPipeline::process_gray(vec![0; 4], 2, 2), vec![0; 4]);
}

#[test]
fn glyph_pixels_turn_with_the_glyph() {
    assert_eq!(glyph_pixel(Turn::Upright, 100, 50, 2, 10, 3, 4), (105, 44));
    assert_eq!(glyph_pixel(Turn::Quarter, 100, 50, 2, 10, 3, 4), (106, 55));
    assert_eq!(glyph_pixel(Turn::Half, 100, 50, 2, 10, 3, 4), (95, 56));
    assert_eq!(glyph_pixel(Turn::ThreeQuarters, 100, 50, 2, 10, 3, 4), (94, 45));
    assert_eq!(glyph_pixel(Turn::Upright, i32::MAX, i32::MIN, i32::MAX, i32::MAX, 7, 0),
        (2 * i32::MAX as i64 + 7, i32::MIN as i64 - i32::MAX as i64));
    assert!(on_canvas(416, 576, 0, 0));
    assert!(on_canvas(416, 576, 415, 575));
    assert!(!on_canvas(416, 576, 416, 0));
    assert!(!on_canvas(416, 576, -1, 3));
}

#[test]
fn wrapping_breaks_only_where_the_next_word_does_not_fit() {
    let limit = 120;
    let text = "When this creature enters, you may search your library for a basic land card";
    let lines = wrap_text(text, ten_px(limit));
    for pair in lines.windows(2) {
        let next_word = pair[1].split_whitespace().next().unwrap();
        let joined = format!("{} {}", pair[0], next_word);
        assert!(joined.chars().count() * 10 > limit, "{joined:?} would have fit");
    }
    for line in &lines {
        assert!(line.chars().count() * 10 <= limit || !line.contains(' '));
    }
}

#[test]
fn the_tone_curve_only_lightens() {
    for v in 0..=255u8 {
        assert!(CardArtPipeline::s_curve(v) >= v);
    }
}

#[test]
fn glyphs_move_along_each_side_of_the_border() {
    let p = BorderPathLayout::default();
    let mut previous: Option<GlyphSpot> = None;
    for d in 0..1695i64 {
        let spot = BorderPath::spot(&p, d).unwrap();
        if let Some(before) = previous {
            if before.side == spot.side {
                match spot.side {
                    Side::Left | Side::LeftReturn => assert!(spot.y < before.y),
                    Side::Top => assert!(spot.x > before.x),
                    Side::Right => assert!(spot.y > before.y),
                    Side::Bottom => assert!(spot.x < before.x),
                }
            }
        }
        previous = Some(spot);
    }
}

#[test]
fn opposite_turns_mirror_each_other() {
    for (x, y) in [(0u32, 0u32), (3, 4), (9, 1)] {
        let up = glyph_pixel(Turn::Upright, 100, 50, 2, 10, x, y);
        let half = glyph_pixel(Turn::Half, 100, 50, 2, 10, x, y);
        assert_eq!(half, (200 - up.0, 100 - up.1));
        let quarter = glyph_pixel(Turn::Quarter, 100, 50, 2, 10, x, y);
        let three = glyph_pixel(Turn::ThreeQuarters, 100, 50, 2, 10, x, y);
        assert_eq!(three, (200 - quarter.0, 100 - quarter.1));
    }
}

#[test]
fn encoded_art_is_fitted_then_dithered() {
    let mut png = Vec::new();
    let source = image::RgbImage::from_fn(8, 4, |x, _| image::Rgb([(x * 30) as u8, (x * 30) as u8, (x * 30) as u8]));
    image::DynamicImage::ImageRgb8(source)
        .write_to(&mut std::io::Cursor::new(&mut png), image::ImageFormat::Png)
        .unwrap();
    let (pixels, w, h) = CardArtPipeline::process(&png, 4, 4).unwrap();
    assert_eq!((w, h), (4, 2));
    assert_eq!(pixels.len(), 8);
    assert!(pixels.iter().all(|&p| p == 0 || p == 255));
    assert!(CardArtPipeline::process(b"not an image", 4, 4).is_none());
}
