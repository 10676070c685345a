use vstd::prelude::*;

use crate::cards::{CardFace, ImageUris, OracleScryfallCard};
use crate::layout::{name_adjusted, wrap_adjusted, Font, Layout, NameStyle, TextStyle, WrapStyle};
use crate::text::same_text;
use crate::typeset::{exceeds, line_height_of, Extent};

verus! {

/// One request to draw text: the text, the baseline it starts on, and how
/// it is set. Sizes and spacing are in half pixels.
#[derive(Debug, Clone)]
pub struct TextDraw {
    pub text: String,
    pub x: i32,
    pub y: i32,
    pub font: Font,
    pub font_size: u32,
    pub letter_spacing: i32,
    pub wrap_width: i32,
}

/// `d` draws `text` at `(x, y)` in the font, spacing and width of `style`,
/// at `font_size`.
pub open spec fn draws(d: TextDraw, text: Seq<char>, x: int, y: int, style: TextStyle, font_size: u32) -> bool {
    &&& d.text@ == text
    &&& d.x == x
    &&& d.y == y
    &&& d.font == style.font
    &&& d.font_size == font_size
    &&& d.letter_spacing == style.letter_spacing
    &&& d.wrap_width == style.wrap_width
}

fn draw_in(text: String, x: i32, y: i32, style: &TextStyle, font_size: u32) -> (d: TextDraw)
    ensures
        draws(d, text@, x as int, y as int, *style, font_size),
{
    TextDraw {
        text,
        x,
        y,
        font: style.font,
        font_size,
        letter_spacing: style.letter_spacing,
        wrap_width: style.wrap_width,
    }
}

/// The value a face gives, else the card's own.
pub open spec fn face_or_card<T>(face_value: Option<T>, card_value: Option<T>) -> Option<T> {
    match face_value {
        Some(v) => Some(v),
        None => card_value,
    }
}

/// The field `pick` of the face, when there is a face.
pub open spec fn face_field(face: Option<CardFace>, pick: spec_fn(CardFace) -> Option<String>) -> Option<String> {
    match face {
        Some(f) => pick(f),
        None => None,
    }
}

fn first_of<'a>(a: Option<&'a String>, b: Option<&'a String>) -> (r: Option<&'a String>)
    ensures
        r is Some <==> (a is Some || b is Some),
        a matches Some(x) ==> r == Some(x),
        a is None ==> r == b,
{
    match a {
        Some(x) => Some(x),
        None => b,
    }
}

fn text_or_empty(t: Option<&String>) -> (s: String)
    ensures
        s@ == (match t {
            Some(x) => x@,
            None => Seq::<char>::empty(),
        }),
{
    match t {
        Some(x) => x.clone(),
        None => String::new(),
    }
}

/// A borrowed view of an optional value.
pub open spec fn by_ref<'a, T>(o: Option<T>) -> Option<&'a T> {
    match o {
        Some(v) => Some(&v),
        None => None,
    }
}

/// The face a renderer draws, by value.
pub open spec fn face_value(face: Option<&CardFace>) -> Option<CardFace> {
    match face {
        Some(f) => Some(*f),
        None => None,
    }
}

/// The image links that art is taken from: the face's when the face has
/// them, else the card's.
pub open spec fn art_of(card: OracleScryfallCard, face: Option<CardFace>) -> Option<ImageUris> {
    face_or_card(
        match face {
            Some(f) => f.image_uris,
            None => None,
        },
        card.print.image_uris,
    )
}

fn face_art<'a>(card: &'a OracleScryfallCard, face: Option<&'a CardFace>) -> (r: Option<&'a ImageUris>)
    ensures
        r == by_ref(art_of(*card, face_value(face))),
{
    let from_face = match face {
        Some(f) => match &f.image_uris {
            Some(u) => Some(u),
            None => None,
        },
        None => None,
    };
    match from_face {
        Some(u) => Some(u),
        None => match &card.print.image_uris {
            Some(u) => Some(u),
            None => None,
        },
    }
}

/// `a / 2` rounded towards zero, as integer division does.
pub open spec fn half_toward_zero(a: int) -> int {
    if a >= 0 {
        a / 2
    } else {
        -((-a) / 2)
    }
}

/// Draws the card's art, centred in the art box.
pub struct CardArtRenderer;

impl CardArtRenderer {
    /// Where the art comes from: the face's images, else the card's.
    pub fn source<'a>(card: &'a OracleScryfallCard, face: Option<&'a CardFace>) -> (r: Option<&'a ImageUris>)
        ensures
            r == by_ref(art_of(*card, face_value(face))),
    {
        face_art(card, face)
    }

    /// The left edge of art that is `render_width` pixels wide once it fits
    /// the art box: the box's left edge plus half the room left over.
    pub fn left_edge(layout: &Layout, render_width: i64) -> (x: i64)
        requires
            layout.art.max_width - render_width <= i64::MAX,
            i64::MIN <= layout.art.x + half_toward_zero(layout.art.max_width - render_width) <= i64::MAX,
        ensures
            x == layout.art.x + half_toward_zero(layout.art.max_width - render_width),
    {
        let room: i64 = layout.art.max_width as i64 - render_width;
        let half: i64 = if room >= 0 {
            room / 2
        } else {
            -((-room) / 2)
        };
        layout.art.x + half
    }
}

/// A rectangle of an image: left edge, top edge, width and height.
#[derive(Debug, Clone, Copy, PartialEq, Eq, Structural)]
pub struct Crop {
    pub x: u32,
    pub y: u32,
    pub width: u32,
    pub height: u32,
}

/// Draws the art of the back of a meld pair, turned on its side, against the
/// right edge of the card.
pub struct MeldBackCardArtRenderer;

impl MeldBackCardArtRenderer {
    /// Where the art comes from: the face's images, else the card's.
    pub fn source<'a>(card: &'a OracleScryfallCard, face: Option<&'a CardFace>) -> (r: Option<&'a ImageUris>)
        ensures
            r == by_ref(art_of(*card, face_value(face))),
    {
        face_art(card, face)
    }

    /// The two crops taken of a full card image `width` by `height`: its
    /// top half, then from that the art window 20 pixels in from each side
    /// and 88 pixels down from the top.
    pub fn crops(width: u32, height: u32) -> (c: (Crop, Crop))
        requires
            width >= 40,
            height / 2 >= 88,
        ensures
            c.0 == (Crop { x: 0, y: 0, width, height: height / 2 }),
            c.1 == (Crop { x: 20, y: 88, width: (width - 40) as u32, height: (height / 2 - 88) as u32 }),
    {
        let half = height / 2;
        (Crop { x: 0, y: 0, width, height: half }, Crop { x: 20, y: 88, width: width - 40, height: half - 88 })
    }

    /// Where art of `art_width` by `art_height` goes on a canvas of
    /// `canvas_width` by `canvas_height`: against the right edge, less the
    /// margin (none when unset), and centred from top to bottom.
    pub fn position(layout: &Layout, canvas_width: u32, canvas_height: u32, art_width: u32, art_height: u32) -> (p: (i64, i64))
        requires
            i64::MIN <= canvas_width - (match layout.meld_card_back_art.margin_right {
                Some(m) => m,
                None => 0,
            }) - art_width,
            canvas_width - (match layout.meld_card_back_art.margin_right {
                Some(m) => m,
                None => 0,
            }) <= i64::MAX,
        ensures
            p.0 == canvas_width - (match layout.meld_card_back_art.margin_right {
                Some(m) => m,
                None => 0,
            }) - art_width,
            p.1 == half_toward_zero(canvas_height - art_height),
    {
        let margin: i64 = match layout.meld_card_back_art.margin_right {
            Some(m) => m,
            None => 0,
        };
        let x: i64 = canvas_width as i64 - margin - art_width as i64;
        let room: i64 = canvas_height as i64 - art_height as i64;
        let y: i64 = if room >= 0 {
            room / 2
        } else {
            -((-room) / 2)
        };
        (x, y)
    }
}

/// How a card's name is set: the name style and the wrap style. A name
/// wider than its box is set smaller (when the style has a smaller size);
/// on a card of an un-set, a name that even then runs past the top edge
/// wraps onto the right edge, and one that runs past the right edge as well
/// wraps all the way round. `name_width` is the name at the name size,
/// `long_width` at the smaller size with half a pixel between letters.
pub open spec fn name_styles(layout: Layout, is_funny: bool, name_width: Extent, long_width: Extent) -> (NameStyle, WrapStyle) {
    let style = layout.name;
    match style.long_text_font_size {
        Some(_) => {
            if exceeds(name_width, style.wrap_width as int) {
                if exceeds(long_width, layout.border_path.left_side_bottom_y - layout.border_path.left_side_top_y
                    + layout.border_path.top_end_x - layout.border_path.top_start_x
                    + layout.border_path.right_side_bottom_y - layout.border_path.right_side_top_y) && is_funny {
                    (NameStyle::LongName, WrapStyle::FullWrap)
                } else if exceeds(long_width, style.wrap_width + 10) && is_funny {
                    (NameStyle::LongName, WrapStyle::SemiWrap)
                } else {
                    (NameStyle::LongName, WrapStyle::Standard)
                }
            } else {
                (NameStyle::Standard, WrapStyle::Standard)
            }
        },
        None => (NameStyle::Standard, WrapStyle::Standard),
    }
}

/// The name a renderer prints: the face's, else the card's.
pub open spec fn name_of(card: OracleScryfallCard, face: Option<CardFace>) -> Seq<char> {
    match face {
        Some(f) => f.name@,
        None => card.core.name@,
    }
}

/// Only cards of un-sets wrap their name round the border, and a wrapped
/// name is always set at the smaller size.
pub proof fn law_only_funny_names_wrap(layout: Layout, is_funny: bool, name_width: Extent, long_width: Extent)
    ensures
        !is_funny ==> name_styles(layout, is_funny, name_width, long_width).1 == WrapStyle::Standard,
        name_styles(layout, is_funny, name_width, long_width).1 != WrapStyle::Standard
            ==> name_styles(layout, is_funny, name_width, long_width).0 == NameStyle::LongName,
        !exceeds(name_width, layout.name.wrap_width as int)
            ==> name_styles(layout, is_funny, name_width, long_width) == (NameStyle::Standard, WrapStyle::Standard),
{
}

/// Draws the card's name, along the top or around the border.
pub struct NameRenderer;

impl NameRenderer {
    /// The name to print: the face's, else the card's.
    pub fn name<'a>(card: &'a OracleScryfallCard, face: Option<&'a CardFace>) -> (n: &'a String)
        ensures
            n@ == name_of(*card, face_value(face)),
    {
        match face {
            Some(f) => &f.name,
            None => &card.core.name,
        }
    }

    /// Whether the card is from an un-set (a set of type `funny`).
    pub fn is_funny(card: &OracleScryfallCard) -> (b: bool)
        ensures
            b == (card.core.set_type@ == "funny"@),
    {
        same_text(card.core.set_type.as_str(), "funny")
    }

    /// Chooses the name and wrap styles, adjusts the layout for both, and
    /// gives the wrap style, which decides whether the name is drawn around
    /// the border.
    pub fn arrange(layout: &mut Layout, is_funny: bool, name_width: Extent, long_width: Extent) -> (w: WrapStyle)
        requires
            old(layout).border_path.left_side_bottom_y - old(layout).border_path.left_side_top_y
                + old(layout).border_path.top_end_x - old(layout).border_path.top_start_x
                + old(layout).border_path.right_side_bottom_y - old(layout).border_path.right_side_top_y <= i64::MAX,
            old(layout).border_path.left_side_bottom_y - old(layout).border_path.left_side_top_y
                + old(layout).border_path.top_end_x - old(layout).border_path.top_start_x
                + old(layout).border_path.right_side_bottom_y - old(layout).border_path.right_side_top_y >= i64::MIN,
        ensures
            w == name_styles(*old(layout), is_funny, name_width, long_width).1,
            *final(layout) == wrap_adjusted(
                name_styles(*old(layout), is_funny, name_width, long_width).1,
                name_adjusted(name_styles(*old(layout), is_funny, name_width, long_width).0, *old(layout)),
            ),
    {
        let style = layout.name;
        let styles = match style.long_text_font_size {
            Some(_) => {
                if name_width.exceeds(style.wrap_width as i64) {
                    let threshold = layout.border_path.bottom_threshold();
                    if long_width.exceeds(threshold) && is_funny {
                        (NameStyle::LongName, WrapStyle::FullWrap)
                    } else if long_width.exceeds(style.wrap_width as i64 + 10) && is_funny {
                        (NameStyle::LongName, WrapStyle::SemiWrap)
                    } else {
                        (NameStyle::LongName, WrapStyle::Standard)
                    }
                } else {
                    (NameStyle::Standard, WrapStyle::Standard)
                }
            },
            None => (NameStyle::Standard, WrapStyle::Standard),
        };
        styles.0.apply_layout_adjustments(layout);
        styles.1.apply_layout_adjustments(layout);
        styles.1
    }

    /// The name drawn along the top, in the (adjusted) name style.
    pub fn along_top(layout: &Layout, name: &String) -> (d: TextDraw)
        ensures
            draws(d, name@, layout.name.x as int, layout.name.y as int, layout.name, layout.name.font_size),
    {
        draw_in(name.clone(), layout.name.x, layout.name.y, &layout.name, layout.name.font_size)
    }
}

/// The mana cost a renderer prints: the face's, else the card's.
pub open spec fn cost_of(card: OracleScryfallCard, face: Option<CardFace>) -> Option<String> {
    face_or_card(face_field(face, |f: CardFace| f.mana_cost), card.core.mana_cost)
}

/// Where and at what size the mana cost is set: a cost wider than its box
/// is set at the long-cost size; either way it ends at the card's right
/// edge less the margin. `cost_width` is the cost at the cost size,
/// `long_width` at the long-cost size.
pub open spec fn cost_setting(layout: Layout, cost_width: Extent, long_width: Extent) -> (u32, int) {
    let style = layout.cost;
    if exceeds(cost_width, style.wrap_width as int) {
        (layout.font_sizes.long_cost, (layout.width as i32) - (long_width.whole as i32) - (style.margin_right as i32))
    } else {
        (style.font_size, (layout.width as i32) - (cost_width.whole as i32) - (style.margin_right as i32))
    }
}

/// Draws the mana cost in the top right corner.
pub struct ManaCostRenderer;

impl ManaCostRenderer {
    /// The cost to print: the face's, else the card's; none for a card
    /// without one.
    pub fn cost<'a>(card: &'a OracleScryfallCard, face: Option<&'a CardFace>) -> (r: Option<&'a String>)
        ensures
            r == match cost_of(*card, face_value(face)) {
                Some(c) => Some(&c),
                None => None::<&String>,
            },
    {
        let from_face = match face {
            Some(f) => match &f.mana_cost {
                Some(c) => Some(c),
                None => None,
            },
            None => None,
        };
        let from_card = match &card.core.mana_cost {
            Some(c) => Some(c),
            None => None,
        };
        first_of(from_face, from_card)
    }

    /// The cost drawn at its size and place.
    pub fn plan(layout: &Layout, cost: &String, cost_width: Extent, long_width: Extent) -> (d: TextDraw)
        requires
            i32::MIN <= cost_setting(*layout, cost_width, long_width).1 <= i32::MAX,
            (layout.width as i32) - (cost_width.whole as i32) >= i32::MIN,
            (layout.width as i32) - (long_width.whole as i32) >= i32::MIN,
            (layout.width as i32) - (cost_width.whole as i32) <= i32::MAX,
            (layout.width as i32) - (long_width.whole as i32) <= i32::MAX,
        ensures
            draws(d, cost@, cost_setting(*layout, cost_width, long_width).1, layout.cost.y as int, layout.cost,
                cost_setting(*layout, cost_width, long_width).0),
    {
        let style = layout.cost;
        let (size, x) = if cost_width.exceeds(style.wrap_width as i64) {
            let a: i32 = layout.width as i32 - long_width.whole as i32;
            (layout.font_sizes.long_cost, a - style.margin_right as i32)
        } else {
            let a: i32 = layout.width as i32 - cost_width.whole as i32;
            (style.font_size, a - style.margin_right as i32)
        };
        draw_in(cost.clone(), x, style.y, &style, size)
    }
}

/// The type line a renderer prints: the face's, else the card's, else
/// nothing.
pub open spec fn type_line_of(card: OracleScryfallCard, face: Option<CardFace>) -> Seq<char> {
    match face_or_card(face_field(face, |f: CardFace| f.type_line), card.core.type_line) {
        Some(t) => t@,
        None => Seq::empty(),
    }
}

fn face_text<'a>(face: Option<&'a CardFace>, type_line: bool) -> (r: Option<&'a String>)
    ensures
        r == match face {
            Some(f) => match (if type_line { f.type_line } else { f.oracle_text }) {
                Some(t) => Some(&t),
                None => None::<&String>,
            },
            None => None::<&String>,
        },
{
    match face {
        Some(f) => {
            let field = if type_line {
                &f.type_line
            } else {
                &f.oracle_text
            };
            match field {
                Some(t) => Some(t),
                None => None,
            }
        },
        None => None,
    }
}

fn opt_ref(o: &Option<String>) -> (r: Option<&String>)
    ensures
        r == match *o {
            Some(t) => Some(&t),
            None => None::<&String>,
        },
{
    match o {
        Some(t) => Some(t),
        None => None,
    }
}

/// Draws the type line below the art.
pub struct TypeLineRenderer;

impl TypeLineRenderer {
    /// The type line in its style; the text drawing gives back where it
    /// ended, which the layout keeps for the rules text.
    pub fn plan(layout: &Layout, card: &OracleScryfallCard, face: Option<&CardFace>) -> (d: TextDraw)
        ensures
            draws(d, type_line_of(*card, face_value(face)), layout.type_line.x as int, layout.type_line.y as int, layout.type_line, layout.type_line.font_size),
    {
        let text = text_or_empty(first_of(face_text(face, true), opt_ref(&card.core.type_line)));
        draw_in(text, layout.type_line.x, layout.type_line.y, &layout.type_line, layout.type_line.font_size)
    }
}

/// The rules text a renderer prints: the face's, else the card's, else
/// nothing.
pub open spec fn oracle_text_of(card: OracleScryfallCard, face: Option<CardFace>) -> Seq<char> {
    match face_or_card(face_field(face, |f: CardFace| f.oracle_text), card.core.oracle_text) {
        Some(t) => t@,
        None => Seq::empty(),
    }
}

/// The larger of two numbers.
pub open spec fn larger(a: int, b: int) -> int {
    if a >= b {
        a
    } else {
        b
    }
}

/// Draws the rules text.
pub struct OracleTextRenderer;

impl OracleTextRenderer {
    /// The rules text in its style, starting at its usual place or below a
    /// type line that ran longer.
    pub fn plan(layout: &Layout, card: &OracleScryfallCard, face: Option<&CardFace>) -> (d: TextDraw)
        ensures
            draws(d, oracle_text_of(*card, face_value(face)), layout.rules.x as int, larger(layout.rules.y as int, layout.type_line_end_y as int), layout.rules,
                layout.rules.font_size),
    {
        let text = text_or_empty(first_of(face_text(face, false), opt_ref(&card.core.oracle_text)));
        let y = if layout.rules.y >= layout.type_line_end_y {
            layout.rules.y
        } else {
            layout.type_line_end_y
        };
        draw_in(text, layout.rules.x, y, &layout.rules, layout.rules.font_size)
    }
}

/// The second face of a card, when it has one.
pub open spec fn second_face(card: OracleScryfallCard) -> Option<CardFace> {
    match card.core.card_faces {
        Some(fs) => if fs@.len() > 1 {
            Some(fs@[1])
        } else {
            None
        },
        None => None,
    }
}

/// A text of the second face (by `pick`), or nothing.
pub open spec fn second_face_text(card: OracleScryfallCard, pick: spec_fn(CardFace) -> Option<String>) -> Seq<char> {
    match second_face(card) {
        Some(f) => match pick(f) {
            Some(t) => t@,
            None => Seq::empty(),
        },
        None => Seq::empty(),
    }
}

/// The size of the adventure's rules text: the smaller size (when the style
/// has one) once that text takes more than five lines at the main size.
pub open spec fn adventure_text_size(layout: Layout, main_line_count: int) -> u32 {
    let style = layout.adventure_oracle_text_main_face;
    if main_line_count > 5 {
        match style.long_text_font_size {
            Some(s) => s,
            None => style.font_size,
        }
    } else {
        style.font_size
    }
}

/// The size of the adventure's mana cost: the long-cost size when it is
/// wider than its box.
pub open spec fn adventure_cost_size(layout: Layout, cost_width: Extent) -> u32 {
    if exceeds(cost_width, layout.adventure_mana_cost.wrap_width as int) {
        layout.font_sizes.long_cost
    } else {
        layout.adventure_mana_cost.font_size
    }
}

/// Where the two columns of an adventure card start: at the rules text's
/// place, or below a type line that ran longer.
pub open spec fn adventure_rules_y(layout: Layout) -> int {
    larger(layout.adventure_oracle_text_main_face.y as int, layout.type_line_end_y as int)
}

/// Where the adventure's name goes: below its type line, which takes
/// `kind_lines` lines.
pub open spec fn adventure_name_y(layout: Layout, kind_lines: int) -> int {
    adventure_rules_y(layout) + kind_lines * line_height_of(layout.adventure_type_line.font_size)
}

/// Where the adventure's cost goes: below its name, which takes `name_lines`
/// lines.
pub open spec fn adventure_cost_y(layout: Layout, kind_lines: int, name_lines: int) -> int {
    adventure_name_y(layout, kind_lines) + name_lines * line_height_of(layout.adventure_name.font_size)
}

/// Where the adventure's rules text goes: at its place, or below the cost
/// (which takes `cost_lines` lines at `cost_size`) when that runs lower.
pub open spec fn adventure_text_y(layout: Layout, has_cost: bool, kind_lines: int, name_lines: int, cost_size: u32, cost_lines: int) -> int {
    let cost_end = if has_cost {
        adventure_cost_y(layout, kind_lines, name_lines) + cost_lines * line_height_of(cost_size)
    } else {
        0
    };
    larger(layout.adventure_oracle_text_alt_face.y as int, cost_end)
}

/// What an adventure card shows below its art: a rule down the middle, the
/// main face's rules text on the right, and on the left the adventure's type
/// line, name, mana cost (when it has one) and rules text, one below the
/// other.
#[derive(Debug, Clone)]
pub struct AdventurePlan {
    pub rule_x: i32,
    pub rule_y: i32,
    pub rule_length: i32,
    pub rule_thickness: i32,
    pub main_text: TextDraw,
    pub kind: TextDraw,
    pub name: TextDraw,
    pub cost: Option<TextDraw>,
    pub text: TextDraw,
}

fn y_after(origin: i32, lines: usize, font_size: u32) -> (y: i32)
    requires
        origin + lines * line_height_of(font_size) <= i32::MAX,
    ensures
        y == origin + lines * line_height_of(font_size),
{
    crate::typeset::block_end(lines, origin, font_size)
}

/// Draws the rules text of both halves of an adventure card.
pub struct OracleAdventureTextRenderer;

impl OracleAdventureTextRenderer {
    /// The size of the adventure's rules text, given how many lines that
    /// text takes at the main face's size.
    pub fn adventure_text_size(layout: &Layout, main_line_count: usize) -> (s: u32)
        ensures
            s == adventure_text_size(*layout, main_line_count as int),
    {
        let style = &layout.adventure_oracle_text_main_face;
        if main_line_count > 5 {
            match style.long_text_font_size {
                Some(s) => s,
                None => style.font_size,
            }
        } else {
            style.font_size
        }
    }

    /// The size of the adventure's mana cost, given its width at the cost
    /// size.
    pub fn cost_size(layout: &Layout, cost_width: Extent) -> (s: u32)
        ensures
            s == adventure_cost_size(*layout, cost_width),
    {
        if cost_width.exceeds(layout.adventure_mana_cost.wrap_width as i64) {
            layout.font_sizes.long_cost
        } else {
            layout.adventure_mana_cost.font_size
        }
    }

    /// Everything drawn, given the counts of lines that each text takes in
    /// its style (at the sizes `adventure_text_size` and `cost_size` give):
    /// `main_line_count` for the adventure's rules text at the main size,
    /// then the adventure's type line, name and cost.
    pub fn plan(
        layout: &Layout,
        card: &OracleScryfallCard,
        face: Option<&CardFace>,
        main_line_count: usize,
        kind_lines: usize,
        name_lines: usize,
        cost_width: Extent,
        cost_lines: usize,
    ) -> (p: AdventurePlan)
        requires
            adventure_cost_y(*layout, kind_lines as int, name_lines as int)
                + cost_lines * line_height_of(adventure_cost_size(*layout, cost_width)) <= i32::MAX,
        ensures
            p.rule_x == layout.width / 2,
            p.rule_y == adventure_rules_y(*layout),
            p.rule_length == 180,
            p.rule_thickness == 2,
            draws(p.main_text, oracle_text_of(*card, face_value(face)), layout.adventure_oracle_text_main_face.x as int,
                adventure_rules_y(*layout), layout.adventure_oracle_text_main_face,
                layout.adventure_oracle_text_main_face.font_size),
            draws(p.kind, second_face_text(*card, |f: CardFace| f.type_line), layout.adventure_type_line.x as int,
                adventure_rules_y(*layout), layout.adventure_type_line, layout.adventure_type_line.font_size),
            draws(p.name, match second_face(*card) {
                Some(f) => f.name@,
                None => Seq::<char>::empty(),
            }, layout.adventure_name.x as int, adventure_name_y(*layout, kind_lines as int), layout.adventure_name,
                layout.adventure_name.font_size),
            p.cost is Some <==> (second_face(*card) matches Some(f) && f.mana_cost is Some),
            p.cost matches Some(c) ==> draws(c, second_face(*card)->0.mana_cost->0@,
                layout.adventure_mana_cost.margin_left as i32 as int,
                adventure_cost_y(*layout, kind_lines as int, name_lines as int), layout.adventure_mana_cost,
                adventure_cost_size(*layout, cost_width)),
            draws(p.text, second_face_text(*card, |f: CardFace| f.oracle_text),
                layout.adventure_oracle_text_alt_face.x as int,
                adventure_text_y(*layout, p.cost is Some, kind_lines as int, name_lines as int,
                    adventure_cost_size(*layout, cost_width), cost_lines as int),
                layout.adventure_oracle_text_alt_face, adventure_text_size(*layout, main_line_count as int)),
    {
        proof {
            let a = line_height_of(layout.adventure_type_line.font_size);
            let b = line_height_of(layout.adventure_name.font_size);
            let c = line_height_of(adventure_cost_size(*layout, cost_width));
            assert(kind_lines * a >= 0 && name_lines * b >= 0 && cost_lines * c >= 0) by (nonlinear_arith)
                requires
                    a >= 0,
                    b >= 0,
                    c >= 0,
            ;
        }
        let main_style = &layout.adventure_oracle_text_main_face;
        let main_text = text_or_empty(first_of(face_text(face, false), opt_ref(&card.core.oracle_text)));
        let rules_y = if main_style.y >= layout.type_line_end_y {
            main_style.y
        } else {
            layout.type_line_end_y
        };
        let second: Option<&CardFace> = match &card.core.card_faces {
            Some(fs) => if fs.len() > 1 {
                Some(&fs[1])
            } else {
                None
            },
            None => None,
        };
        let kind_text = text_or_empty(face_text(second, true));
        let adventure_text = text_or_empty(face_text(second, false));
        let name_text = match second {
            Some(f) => f.name.clone(),
            None => String::new(),
        };
        let main = draw_in(main_text, main_style.x, rules_y, main_style, main_style.font_size);
        let kind_style = &layout.adventure_type_line;
        let kind = draw_in(kind_text, kind_style.x, rules_y, kind_style, kind_style.font_size);
        let name_y = y_after(rules_y, kind_lines, kind_style.font_size);
        let name_style = &layout.adventure_name;
        let name = draw_in(name_text, name_style.x, name_y, name_style, name_style.font_size);
        let cost_y = y_after(name_y, name_lines, name_style.font_size);
        let cost_style = &layout.adventure_mana_cost;
        let size = Self::cost_size(layout, cost_width);
        let (cost, cmc_y) = match second {
            Some(f) => match &f.mana_cost {
                Some(c) => {
                    let end = y_after(cost_y, cost_lines, size);
                    (Some(draw_in(c.clone(), cost_style.margin_left as i32, cost_y, cost_style, size)), end)
                },
                None => (None, 0i32),
            },
            None => (None, 0i32),
        };
        let alt_style = &layout.adventure_oracle_text_alt_face;
        let text_y = if alt_style.y >= cmc_y {
            alt_style.y
        } else {
            cmc_y
        };
        let text_size = Self::adventure_text_size(layout, main_line_count);
        let text = draw_in(adventure_text, alt_style.x, text_y, alt_style, text_size);
        AdventurePlan {
            rule_x: (layout.width / 2) as i32,
            rule_y: rules_y,
            rule_length: 180,
            rule_thickness: 2,
            main_text: main,
            kind,
            name,
            cost,
            text,
        }
    }
}

/// The artist credit: `Art by` and the artist's name.
pub open spec fn credit_of(artist: Seq<char>) -> Seq<char> {
    "Art by "@ + artist
}

/// The size of the artist credit: the smaller size (when the style has
/// one) for a credit wider than its box.
pub open spec fn credit_size(layout: Layout, credit_width: Extent) -> u32 {
    if exceeds(credit_width, layout.artist.wrap_width as int) {
        match layout.artist.long_text_font_size {
            Some(s) => s,
            None => layout.artist.font_size,
        }
    } else {
        layout.artist.font_size
    }
}

/// The baseline of the artist credit: a credit that had to be set smaller
/// moves up by a line (a line and a fifth of the style's size, rounded
/// down) for each line past the first that it takes.
pub open spec fn credit_y(layout: Layout, credit_width: Extent, line_count: int) -> int {
    let extra = if line_count - 1 > 0 {
        line_count - 1
    } else {
        0
    };
    if exceeds(credit_width, layout.artist.wrap_width as int) {
        layout.artist.y - extra * ((layout.artist.font_size * 3) / 5)
    } else {
        layout.artist.y as int
    }
}

/// Draws the artist credit along the bottom.
pub struct ArtistRenderer;

impl ArtistRenderer {
    /// The credit for `artist`.
    pub fn credit(artist: &String) -> (s: String)
        ensures
            s@ == credit_of(artist@),
    {
        let mut s = String::from_str("Art by ");
        s.append(artist.as_str());
        s
    }

    /// The size the credit is set at, given its width at the usual size.
    pub fn font_size(layout: &Layout, credit_width: Extent) -> (s: u32)
        ensures
            s == credit_size(*layout, credit_width),
    {
        if credit_width.exceeds(layout.artist.wrap_width as i64) {
            match layout.artist.long_text_font_size {
                Some(s) => s,
                None => layout.artist.font_size,
            }
        } else {
            layout.artist.font_size
        }
    }

    /// The credit for the card's artist, if it names one, given the credit's
    /// width at the usual size and how many lines it takes at the size
    /// `font_size` gives.
    pub fn plan(layout: &Layout, card: &OracleScryfallCard, credit_width: Extent, line_count: usize) -> (d: Option<TextDraw>)
        requires
            i32::MIN <= credit_y(*layout, credit_width, line_count as int),
        ensures
            d is Some <==> card.print.artist is Some,
            d matches Some(t) ==> draws(t, credit_of(card.print.artist->0@), layout.artist.x as int,
                credit_y(*layout, credit_width, line_count as int), layout.artist, credit_size(*layout, credit_width)),
    {
        match &card.print.artist {
            Some(artist) => {
                let text = Self::credit(artist);
                let size = Self::font_size(layout, credit_width);
                let step: i64 = (layout.artist.font_size as i64 * 3) / 5;
                let y: i32 = if credit_width.exceeds(layout.artist.wrap_width as i64) && line_count > 1 && step > 0 {
                    let extra: usize = line_count - 1;
                    proof {
                        assert(extra <= extra * step) by (nonlinear_arith)
                            requires
                                step >= 1,
                        ;
                    }
                    let e = extra as i64;
                    (layout.artist.y as i64 - e * step) as i32
                } else {
                    proof {
                        let extra: int = if line_count - 1 > 0 { line_count - 1 } else { 0 };
                        if exceeds(credit_width, layout.artist.wrap_width as int) {
                            assert(extra == 0 || step == 0);
                            assert(extra * step == 0) by (nonlinear_arith)
                                requires
                                    extra == 0 || step == 0,
                            ;
                        }
                    }
                    layout.artist.y
                };
                Some(draw_in(text, layout.artist.x, y, &layout.artist, size))
            },
            None => None,
        }
    }
}

/// Draws the set's icon in the bottom left corner.
pub struct SetIconRenderer;

impl SetIconRenderer {
    /// Whether there is an icon to draw: the card knows its set's icon.
    pub fn has_icon(card: &OracleScryfallCard) -> (b: bool)
        ensures
            b == card.core.set_icon_svg_uri is Some,
    {
        card.core.set_icon_svg_uri.is_some()
    }
}

/// The upper case of `s` by Unicode's rules.
pub uninterp spec fn upper_case(s: Seq<char>) -> Seq<char>;

/// ASCII letters raised to upper case, everything else kept.
pub open spec fn ascii_upper(s: Seq<char>) -> Seq<char> {
    s.map_values(|c: char| if 'a' <= c <= 'z' { ((c as u32) - 32) as char } else { c })
}

/// `str::to_uppercase`: the upper case of `s` by Unicode's rules, named;
/// on ASCII text, as the documentation says, letters are raised and
/// everything else is kept.
#[verifier::external_body]
fn to_upper(s: &str) -> (r: String)
    ensures
        r@ == upper_case(s@),
        (forall|i: int| 0 <= i < s@.len() ==> (#[trigger] s@[i] as u32) < 128) ==> r@ == ascii_upper(s@),
{
    s.to_uppercase()
}

/// The set code line: the set's code in upper case, a space, and the
/// collector number.
pub open spec fn set_line_of(card: OracleScryfallCard) -> Seq<char> {
    upper_case(card.core.set@) + " "@ + card.print.collector_number@
}

/// Draws the set code and collector number along the bottom.
pub struct SetCodeRenderer;

impl SetCodeRenderer {
    /// The set code line in its style and place.
    pub fn plan(layout: &Layout, card: &OracleScryfallCard) -> (d: TextDraw)
        ensures
            draws(d, set_line_of(*card), layout.set_code.x as int, layout.set_code.y as int, layout.set_code,
                layout.set_code.font_size),
    {
        let mut text = to_upper(card.core.set.as_str());
        text.append(" ");
        text.append(card.print.collector_number.as_str());
        draw_in(text, layout.set_code.x, layout.set_code.y, &layout.set_code, layout.set_code.font_size)
    }
}

/// Power and toughness as printed: the two, a slash between.
pub open spec fn power_toughness_of(power: Seq<char>, toughness: Seq<char>) -> Seq<char> {
    power + "/"@ + toughness
}

/// Draws power and toughness in the bottom right corner.
pub struct PowerToughnessRenderer;

impl PowerToughnessRenderer {
    /// Power and toughness (each the face's, else the card's), when both
    /// are known.
    pub fn plan(layout: &Layout, card: &OracleScryfallCard, face: Option<&CardFace>) -> (d: Option<TextDraw>)
        ensures
            d is Some <==> (face_or_card(face_field(face_value(face), |f: CardFace| f.power), card.core.power) is Some
                && face_or_card(face_field(face_value(face), |f: CardFace| f.toughness), card.core.toughness) is Some),
            d matches Some(t) ==> draws(t, power_toughness_of(
                face_or_card(face_field(face_value(face), |f: CardFace| f.power), card.core.power)->0@,
                face_or_card(face_field(face_value(face), |f: CardFace| f.toughness), card.core.toughness)->0@,
            ), layout.pow_tough_style.x as int, layout.pow_tough_style.y as int, layout.pow_tough_style,
                layout.pow_tough_style.font_size),
    {
        let (fp, ft) = match face {
            Some(f) => (opt_ref(&f.power), opt_ref(&f.toughness)),
            None => (None, None),
        };
        let power = first_of(fp, opt_ref(&card.core.power));
        let toughness = first_of(ft, opt_ref(&card.core.toughness));
        match (power, toughness) {
            (Some(p), Some(t)) => {
                let mut text = p.clone();
                text.append("/");
                text.append(t.as_str());
                let style = &layout.pow_tough_style;
                Some(draw_in(text, style.x, style.y, style, style.font_size))
            },
            _ => None,
        }
    }
}

/// The width in pixels of the solid black frame round a card.
pub const FRAME_WIDTH: u32 = 3;

/// Whether the pixel at `(x, y)` of an image `width` by `height` belongs to
/// a frame `thickness` pixels wide: it lies that close to an edge.
pub open spec fn in_frame(width: u32, height: u32, thickness: u32, x: u32, y: u32) -> bool {
    x < thickness || x + thickness >= width || y < thickness || y + thickness >= height
}

/// The frame round a card image: a solid black band three pixels wide
/// along each of its four edges.
#[derive(Debug, Clone, Copy, PartialEq, Eq, Structural)]
pub struct Frame {
    pub width: u32,
    pub height: u32,
    pub thickness: u32,
}

impl Frame {
    /// Whether the frame paints the pixel at `(x, y)`.
    pub fn covers(&self, x: u32, y: u32) -> (b: bool)
        ensures
            b == in_frame(self.width, self.height, self.thickness, x, y),
    {
        let t = self.thickness as u64;
        (x as u64) < t || x as u64 + t >= self.width as u64 || (y as u64) < t || y as u64 + t >= self.height as u64
    }
}

/// Draws the black frame of the card.
pub struct BorderRenderer;

impl BorderRenderer {
    /// The frame of an image `width` by `height`.
    pub fn frame(width: u32, height: u32) -> (f: Frame)
        requires
            width >= 3,
            height >= 3,
        ensures
            f == (Frame { width, height, thickness: FRAME_WIDTH }),
    {
        Frame { width, height, thickness: FRAME_WIDTH }
    }
}

} // verus!
