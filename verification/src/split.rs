use vstd::prelude::*;

use crate::cards::{CardFace, OracleScryfallCard};
use crate::layout::{ArtLayout, Font, Layout};
use crate::renderers::{larger, Crop, TextDraw};
use crate::text::chars_of;
use crate::typeset::{exceeds, half_rounded, Extent};

verus! {

/// The style of one text of a split card. Split cards are printed on their
/// side, so each half's text runs up the page; sizes and spacing are in
/// half pixels.
#[derive(Debug, Clone, Copy, PartialEq, Eq, Structural)]
pub struct SplitTextStyle {
    pub x: i32,
    pub font: Font,
    pub font_size: u32,
    pub small_text_font_size: Option<u32>,
    pub large_text_font_size: Option<u32>,
    pub letter_spacing: i32,
    pub wrap_width: i32,
    pub margin_top: u32,
    pub margin_bottom: u32,
    pub margin_right: u32,
}

/// The box of a set icon on a split card.
#[derive(Debug, Clone, Copy, PartialEq, Eq, Structural)]
pub struct SplitIconStyle {
    pub margin_bottom: i32,
    pub max_width: u32,
    pub max_height: u32,
}

/// What the split card renderers read beyond the card's common layout, and
/// what the type line renderer leaves for the icons and rules texts: the
/// middle of each type line and where it ends.
#[derive(Debug, Clone, Copy, PartialEq, Eq, Structural)]
pub struct SplitLayout {
    pub first_name: SplitTextStyle,
    pub second_name: SplitTextStyle,
    pub first_cost: SplitTextStyle,
    pub second_cost: SplitTextStyle,
    pub cost_font_size: u32,
    pub first_type_line: SplitTextStyle,
    pub second_type_line: SplitTextStyle,
    pub first_oracle_text: SplitTextStyle,
    pub second_oracle_text: SplitTextStyle,
    pub fuse_reminder_text: SplitTextStyle,
    pub room_art: ArtLayout,
    pub first_art: ArtLayout,
    pub second_art: ArtLayout,
    pub first_set_icon: SplitIconStyle,
    pub second_set_icon: SplitIconStyle,
    pub first_line_mid_point: i32,
    pub first_line_end_x: i32,
    pub second_line_mid_point: i32,
    pub second_line_end_x: i32,
}

/// `d` draws `text` at `(x, y)` in the font, spacing and width of `style`,
/// at `font_size`.
pub open spec fn draws_split(d: TextDraw, text: Seq<char>, x: int, y: int, style: SplitTextStyle, font_size: u32) -> bool {
    &&& d.text@ == text
    &&& d.x == x
    &&& d.y == y
    &&& d.font == style.font
    &&& d.font_size == font_size
    &&& d.letter_spacing == style.letter_spacing
    &&& d.wrap_width == style.wrap_width
}

fn draw_split(text: String, x: i32, y: i32, style: &SplitTextStyle, font_size: u32) -> (d: TextDraw)
    ensures
        draws_split(d, text@, x as int, y as int, *style, font_size),
{
    TextDraw {
        text,
        x,
        y,
        font: style.font,
        font_size,
        letter_spacing: style.letter_spacing,
        wrap_width: style.wrap_width,
    }
}

/// The face at `i` of a card, when it has one.
pub open spec fn face_at(card: OracleScryfallCard, i: int) -> Option<CardFace> {
    match card.core.card_faces {
        Some(fs) => if 0 <= i < fs@.len() {
            Some(fs@[i])
        } else {
            None
        },
        None => None,
    }
}

fn clone_opt(o: &Option<String>) -> (r: Option<String>)
    ensures
        r == *o,
{
    match o {
        Some(t) => Some(t.clone()),
        None => None,
    }
}

fn face_ref(card: &OracleScryfallCard, i: usize) -> (r: Option<&CardFace>)
    ensures
        r == match face_at(*card, i as int) {
            Some(f) => Some(&f),
            None => None::<&CardFace>,
        },
{
    match &card.core.card_faces {
        Some(fs) => if i < fs.len() {
            Some(&fs[i])
        } else {
            None
        },
        None => None,
    }
}

/// The name of a half: the face's when there is that face, else the card's.
pub open spec fn half_name(card: OracleScryfallCard, i: int) -> Seq<char> {
    match face_at(card, i) {
        Some(f) => f.name@,
        None => card.core.name@,
    }
}

/// A text field of a half: the face's field when there is that face (even
/// when the face lacks it), else the card's.
pub open spec fn half_field(card: OracleScryfallCard, i: int, of_face: spec_fn(CardFace) -> Option<String>, of_card: Option<String>) -> Option<String> {
    match face_at(card, i) {
        Some(f) => of_face(f),
        None => of_card,
    }
}

/// The size a split text is set at: the smaller size (when the style has
/// one) for a text wider than its box.
pub open spec fn small_when_wide(style: SplitTextStyle, width: Extent) -> u32 {
    match style.small_text_font_size {
        Some(s) => if exceeds(width, style.wrap_width as int) {
            s
        } else {
            style.font_size
        },
        None => style.font_size,
    }
}

/// The size a split rules text is set at: the larger size (when the style
/// has one) for a text wider than its box.
pub open spec fn large_when_wide(style: SplitTextStyle, width: Extent) -> u32 {
    match style.large_text_font_size {
        Some(s) => if exceeds(width, style.wrap_width as int) {
            s
        } else {
            style.font_size
        },
        None => style.font_size,
    }
}

fn size_small_when_wide(style: &SplitTextStyle, width: Extent) -> (s: u32)
    ensures
        s == small_when_wide(*style, width),
{
    match style.small_text_font_size {
        Some(s) => if width.exceeds(style.wrap_width as i64) {
            s
        } else {
            style.font_size
        },
        None => style.font_size,
    }
}

fn size_large_when_wide(style: &SplitTextStyle, width: Extent) -> (s: u32)
    ensures
        s == large_when_wide(*style, width),
{
    match style.large_text_font_size {
        Some(s) => if width.exceeds(style.wrap_width as i64) {
            s
        } else {
            style.font_size
        },
        None => style.font_size,
    }
}

/// A straight line: where it starts, how long and how thick it is.
#[derive(Debug, Clone, Copy, PartialEq, Eq, Structural)]
pub struct Rule {
    pub x: i32,
    pub y: i32,
    pub length: i32,
    pub thickness: i32,
}

/// The names of both halves of a split card, and the rule between the
/// halves (none on a Room).
#[derive(Debug, Clone)]
pub struct SplitNames {
    pub rule: Option<Rule>,
    pub first: TextDraw,
    pub second: TextDraw,
}

/// Draws the names of both halves of a split card.
pub struct SplitNameRenderer;

impl SplitNameRenderer {
    /// The names, each at the bottom of its half less the margin, and the
    /// rule across the middle: shorter on a fuse card, to leave room for
    /// the reminder. `first_width` and `second_width` are the names at the
    /// styles' sizes.
    pub fn plan(
        layout: &Layout,
        split: &SplitLayout,
        card: &OracleScryfallCard,
        first_width: Extent,
        second_width: Extent,
        is_room: bool,
        fused: bool,
    ) -> (p: SplitNames)
        requires
            split.first_name.margin_bottom <= layout.height,
            split.second_name.margin_bottom <= layout.height / 2,
            layout.width >= 110,
        ensures
            draws_split(p.first, half_name(*card, 0), split.first_name.x as int,
                (layout.height - split.first_name.margin_bottom) as i32 as int, split.first_name,
                small_when_wide(split.first_name, first_width)),
            draws_split(p.second, half_name(*card, 1), split.second_name.x as int,
                (layout.height / 2 - split.second_name.margin_bottom) as i32 as int, split.second_name,
                small_when_wide(split.second_name, second_width)),
            p.rule is Some <==> !is_room,
            p.rule matches Some(r) ==> r == (Rule {
                x: 20,
                y: (layout.height / 2) as i32,
                length: (if fused { layout.width - 110 } else { layout.width - 40 }) as i32,
                thickness: 2,
            }),
    {
        let first_name = match face_ref(card, 0) {
            Some(f) => f.name.clone(),
            None => card.core.name.clone(),
        };
        let second_name = match face_ref(card, 1) {
            Some(f) => f.name.clone(),
            None => card.core.name.clone(),
        };
        let first_size = size_small_when_wide(&split.first_name, first_width);
        let second_size = size_small_when_wide(&split.second_name, second_width);
        let first_y = (layout.height - split.first_name.margin_bottom) as i32;
        let second_y = (layout.height / 2 - split.second_name.margin_bottom) as i32;
        let rule = if is_room {
            None
        } else {
            let length = if fused {
                layout.width - 110
            } else {
                layout.width - 40
            };
            Some(Rule { x: 20, y: (layout.height / 2) as i32, length: length as i32, thickness: 2 })
        };
        SplitNames {
            rule,
            first: draw_split(first_name, split.first_name.x, first_y, &split.first_name, first_size),
            second: draw_split(second_name, split.second_name.x, second_y, &split.second_name, second_size),
        }
    }
}

/// Draws the mana costs of both halves of a split card.
pub struct SplitCostRenderer;

impl SplitCostRenderer {
    /// The cost of each half that has one (the face's when there is that
    /// face, else the card's), placed up from the middle of its half by its
    /// width and the margin. `first_width` and `second_width` are the costs'
    /// widths rounded to whole pixels.
    pub fn plan(
        layout: &Layout,
        split: &SplitLayout,
        card: &OracleScryfallCard,
        first_width: u32,
        second_width: u32,
    ) -> (p: (Option<TextDraw>, Option<TextDraw>))
        requires
            layout.height / 2 + first_width + split.first_cost.margin_top <= i32::MAX,
            second_width + split.second_cost.margin_top <= i32::MAX,
        ensures
            p.0 is Some <==> half_field(*card, 0, |f: CardFace| f.mana_cost, card.core.mana_cost) is Some,
            p.1 is Some <==> half_field(*card, 1, |f: CardFace| f.mana_cost, card.core.mana_cost) is Some,
            p.0 matches Some(d) ==> draws_split(d, half_field(*card, 0, |f: CardFace| f.mana_cost, card.core.mana_cost)->0@,
                split.first_cost.x as int, layout.height / 2 + first_width + split.first_cost.margin_top,
                split.first_cost, split.cost_font_size),
            p.1 matches Some(d) ==> draws_split(d, half_field(*card, 1, |f: CardFace| f.mana_cost, card.core.mana_cost)->0@,
                split.second_cost.x as int, second_width + split.second_cost.margin_top, split.second_cost,
                split.cost_font_size),
    {
        let first = match face_ref(card, 0) {
            Some(f) => clone_opt(&f.mana_cost),
            None => clone_opt(&card.core.mana_cost),
        };
        let second = match face_ref(card, 1) {
            Some(f) => clone_opt(&f.mana_cost),
            None => clone_opt(&card.core.mana_cost),
        };
        let a = match first {
            Some(c) => {
                let y = (layout.height / 2 + first_width + split.first_cost.margin_top) as i32;
                Some(draw_split(c, split.first_cost.x, y, &split.first_cost, split.cost_font_size))
            },
            None => None,
        };
        let b = match second {
            Some(c) => {
                let y = (second_width + split.second_cost.margin_top) as i32;
                Some(draw_split(c, split.second_cost.x, y, &split.second_cost, split.cost_font_size))
            },
            None => None,
        };
        (a, b)
    }
}

/// Draws the art of a split card: a Room's one picture across the middle,
/// or each half's picture in its half.
pub struct SplitCardArtRenderer;

impl SplitCardArtRenderer {
    /// The top edge of a Room's art that is `render_height` tall: the art
    /// box centred on the canvas, the art centred in the box.
    pub fn room_top(split: &SplitLayout, canvas_height: u32, render_height: u32) -> (y: u32)
        ensures
            y == (if canvas_height >= split.room_art.max_height {
                canvas_height - split.room_art.max_height
            } else {
                0
            }) / 2 + (if split.room_art.max_height >= render_height {
                split.room_art.max_height - render_height
            } else {
                0
            }) / 2,
    {
        let centred = canvas_height.saturating_sub(split.room_art.max_height) / 2;
        let inner = split.room_art.max_height.saturating_sub(render_height) / 2;
        centred + inner
    }

    /// The crops of a picture `width` by `height` that give the two halves'
    /// art: its left half, and from the middle to the right edge.
    pub fn crops(width: u32, height: u32) -> (c: (Crop, Crop))
        ensures
            c.0 == (Crop { x: 0, y: 0, width: width / 2, height }),
            c.1 == (Crop { x: width / 2, y: 0, width, height }),
    {
        (Crop { x: 0, y: 0, width: width / 2, height }, Crop { x: width / 2, y: 0, width, height })
    }

    /// The top edge of the first half's art that is `render_height` tall:
    /// centred on the lower half of the card.
    pub fn first_top(layout: &Layout, render_height: u32) -> (y: i64)
        requires
            render_height / 2 <= layout.height / 2 + layout.height / 2 / 2,
        ensures
            y == layout.height / 2 + layout.height / 2 / 2 - render_height / 2,
    {
        let half = layout.height / 2;
        (half + half / 2 - render_height / 2) as i64
    }

    /// The top edge of the second half's art that is `render_height` tall:
    /// centred on the upper half of the card.
    pub fn second_top(layout: &Layout, render_height: u32) -> (y: i64)
        requires
            render_height / 2 <= layout.height / 4,
        ensures
            y == layout.height / 4 - render_height / 2,
    {
        (layout.height / 4 - render_height / 2) as i64
    }
}

/// The type line of a split half: at the bottom of the half less the
/// margin, at the smaller size when the style has one.
pub open spec fn type_line_draw(d: TextDraw, text: Seq<char>, style: SplitTextStyle, y: int) -> bool {
    draws_split(d, text, style.x as int, y, style, match style.small_text_font_size {
        Some(s) => s,
        None => style.font_size,
    })
}

/// Draws the type lines of both halves of a split card.
pub struct SplitTypeLineRenderer;

impl SplitTypeLineRenderer {
    /// The type line of each half that has one (the face's when there is
    /// that face, else the card's).
    pub fn plan(layout: &Layout, split: &SplitLayout, card: &OracleScryfallCard) -> (p: (Option<TextDraw>, Option<TextDraw>))
        requires
            split.first_type_line.margin_bottom <= layout.height,
            split.second_type_line.margin_bottom <= layout.height / 2,
        ensures
            p.0 is Some <==> half_field(*card, 0, |f: CardFace| f.type_line, card.core.type_line) is Some,
            p.1 is Some <==> half_field(*card, 1, |f: CardFace| f.type_line, card.core.type_line) is Some,
            p.0 matches Some(d) ==> type_line_draw(d, half_field(*card, 0, |f: CardFace| f.type_line, card.core.type_line)->0@,
                split.first_type_line, (layout.height - split.first_type_line.margin_bottom) as i32 as int),
            p.1 matches Some(d) ==> type_line_draw(d, half_field(*card, 1, |f: CardFace| f.type_line, card.core.type_line)->0@,
                split.second_type_line, (layout.height / 2 - split.second_type_line.margin_bottom) as i32 as int),
    {
        let first = match face_ref(card, 0) {
            Some(f) => clone_opt(&f.type_line),
            None => clone_opt(&card.core.type_line),
        };
        let second = match face_ref(card, 1) {
            Some(f) => clone_opt(&f.type_line),
            None => clone_opt(&card.core.type_line),
        };
        let a = match first {
            Some(t) => {
                let s = &split.first_type_line;
                let size = match s.small_text_font_size {
                    Some(z) => z,
                    None => s.font_size,
                };
                Some(draw_split(t, s.x, (layout.height - s.margin_bottom) as i32, s, size))
            },
            None => None,
        };
        let b = match second {
            Some(t) => {
                let s = &split.second_type_line;
                let size = match s.small_text_font_size {
                    Some(z) => z,
                    None => s.font_size,
                };
                Some(draw_split(t, s.x, (layout.height / 2 - s.margin_bottom) as i32, s, size))
            },
            None => None,
        };
        (a, b)
    }

    /// Records, for the first half, the middle of its type line (its `x`
    /// less half the height the line takes) and where the drawing ended.
    pub fn record_first(split: &mut SplitLayout, type_height: u32, end_x: i32)
        requires
            i32::MIN <= old(split).first_type_line.x - type_height / 2,
        ensures
            *final(split) == (SplitLayout {
                first_line_mid_point: (old(split).first_type_line.x - type_height / 2) as i32,
                first_line_end_x: end_x,
                ..*old(split)
            }),
    {
        split.first_line_mid_point = (split.first_type_line.x as i64 - (type_height / 2) as i64) as i32;
        split.first_line_end_x = end_x;
    }

    /// Records the same for the second half.
    pub fn record_second(split: &mut SplitLayout, type_height: u32, end_x: i32)
        requires
            i32::MIN <= old(split).second_type_line.x - type_height / 2,
        ensures
            *final(split) == (SplitLayout {
                second_line_mid_point: (old(split).second_type_line.x - type_height / 2) as i32,
                second_line_end_x: end_x,
                ..*old(split)
            }),
    {
        split.second_line_mid_point = (split.second_type_line.x as i64 - (type_height / 2) as i64) as i32;
        split.second_line_end_x = end_x;
    }
}

/// Where the set icon of a half goes: its left edge and top edge.
#[derive(Debug, Clone, Copy, PartialEq, Eq, Structural)]
pub struct IconSpot {
    pub x: u32,
    pub y: u32,
    pub max_width: u32,
    pub max_height: u32,
}

/// Draws the set icon once on each half of a split card.
pub struct SplitSetIconRenderer;

impl SplitSetIconRenderer {
    /// Where the two icons go: level with the middle of each half's type
    /// line, the first above the middle of the card by its margin, the
    /// second at its margin from the top. None when the card does not know
    /// its set's icon.
    pub fn plan(layout: &Layout, split: &SplitLayout, card: &OracleScryfallCard) -> (p: Option<(IconSpot, IconSpot)>)
        requires
            layout.height / 2 + (split.first_set_icon.margin_bottom as u32) <= u32::MAX,
        ensures
            p is Some <==> card.core.set_icon_svg_uri is Some,
            p matches Some(q) ==> q.0 == (IconSpot {
                x: split.first_line_mid_point as u32,
                y: (layout.height / 2 + (split.first_set_icon.margin_bottom as u32)) as u32,
                max_width: split.first_set_icon.max_width,
                max_height: split.first_set_icon.max_height,
            }) && q.1 == (IconSpot {
                x: split.second_line_mid_point as u32,
                y: split.second_set_icon.margin_bottom as u32,
                max_width: split.second_set_icon.max_width,
                max_height: split.second_set_icon.max_height,
            }),
    {
        if card.core.set_icon_svg_uri.is_some() {
            let first = IconSpot {
                x: split.first_line_mid_point as u32,
                y: layout.height / 2 + split.first_set_icon.margin_bottom as u32,
                max_width: split.first_set_icon.max_width,
                max_height: split.first_set_icon.max_height,
            };
            let second = IconSpot {
                x: split.second_line_mid_point as u32,
                y: split.second_set_icon.margin_bottom as u32,
                max_width: split.second_set_icon.max_width,
                max_height: split.second_set_icon.max_height,
            };
            Some((first, second))
        } else {
            None
        }
    }
}

/// `s` with every occurrence of `pat` replaced by `with`, scanning from the
/// left and never reusing a replaced part.
pub open spec fn replace_all(s: Seq<char>, pat: Seq<char>, with: Seq<char>) -> Seq<char>
    decreases s.len(),
{
    if s.len() == 0 || pat.len() == 0 {
        s
    } else if pat.len() <= s.len() && s.take(pat.len() as int) == pat {
        with + replace_all(s.skip(pat.len() as int), pat, with)
    } else {
        seq![s[0]] + replace_all(s.skip(1), pat, with)
    }
}

/// Whether `ps` occurs in `cs` at position `i`.
fn occurs_at(cs: &Vec<char>, i: usize, ps: &Vec<char>) -> (b: bool)
    requires
        i <= cs@.len(),
    ensures
        b == (i + ps@.len() <= cs@.len() && cs@.subrange(i as int, i + ps@.len()) == ps@),
{
    if ps.len() > cs.len() - i {
        return false;
    }
    let mut k: usize = 0;
    while k < ps.len()
        invariant
            k <= ps@.len(),
            i + ps@.len() <= cs@.len(),
            cs@.subrange(i as int, i + k) == ps@.take(k as int),
        decreases ps@.len() - k,
    {
        assert(i + k < cs.len());
        if cs[i + k] != ps[k] {
            proof {
                assert(cs@.subrange(i as int, i + ps@.len())[k as int] == cs@[i + k]);
            }
            return false;
        }
        proof {
            assert(cs@.subrange(i as int, i + k + 1) =~= cs@.subrange(i as int, i + k).push(cs@[i + k]));
            assert(ps@.take(k + 1) =~= ps@.take(k as int).push(ps@[k as int]));
        }
        k = k + 1;
    }
    proof {
        assert(ps@.take(ps@.len() as int) =~= ps@);
    }
    true
}

/// `s` with every non-overlapping occurrence of `pat`, leftmost first,
/// replaced by `with` (as `str::replace` does with a non-empty pattern).
fn replace_text(s: &str, pat: &str, with: &str) -> (r: String)
    requires
        pat@.len() > 0,
    ensures
        r@ == replace_all(s@, pat@, with@),
{
    let cs = chars_of(s);
    let ps = chars_of(pat);
    let mut r = String::new();
    let mut i: usize = 0;
    proof {
        assert(s@.skip(0) =~= s@);
    }
    while i < cs.len()
        invariant
            i <= cs@.len(),
            cs@ == s@,
            ps@ == pat@,
            pat@.len() > 0,
            r@ + replace_all(s@.skip(i as int), pat@, with@) == replace_all(s@, pat@, with@),
        decreases cs@.len() - i,
    {
        let ghost rest = s@.skip(i as int);
        if occurs_at(&cs, i, &ps) {
            proof {
                assert(rest.take(pat@.len() as int) =~= s@.subrange(i as int, i + pat@.len()));
                assert(rest.skip(pat@.len() as int) =~= s@.skip(i + pat@.len()));
                assert(replace_all(rest, pat@, with@) == with@ + replace_all(rest.skip(pat@.len() as int), pat@, with@));
            }
            let ghost before = r@;
            r.append(with);
            i = i + ps.len();
            proof {
                assert(before + (with@ + replace_all(s@.skip(i as int), pat@, with@)) =~= (before + with@)
                    + replace_all(s@.skip(i as int), pat@, with@));
            }
        } else {
            proof {
                if pat@.len() <= rest.len() {
                    assert(rest.take(pat@.len() as int) =~= s@.subrange(i as int, i + pat@.len()));
                }
                assert(rest.skip(1) =~= s@.skip(i + 1));
                assert(rest[0] == s@[i as int]);
                assert(replace_all(rest, pat@, with@) == seq![s@[i as int]] + replace_all(rest.skip(1), pat@, with@));
            }
            let ghost before = r@;
            r.push(cs[i]);
            i = i + 1;
            proof {
                assert(before + (seq![s@[i - 1]] + replace_all(s@.skip(i as int), pat@, with@)) =~= before.push(
                    s@[i - 1],
                ) + replace_all(s@.skip(i as int), pat@, with@));
            }
        }
    }
    proof {
        assert(s@.skip(i as int) =~= Seq::<char>::empty());
        assert(r@ + Seq::<char>::empty() =~= r@);
    }
    r
}

/// The reminder that a fuse card's two halves may be cast together.
pub open spec fn fuse_reminder() -> Seq<char> {
    "\nFuse (You may cast one or both halves of this card from your hand.)"@
}

/// What the rules texts of a split card draw: the fuse reminder (on a fuse
/// card) and each half's text.
#[derive(Debug, Clone)]
pub struct SplitTexts {
    pub reminder: Option<TextDraw>,
    pub first: Option<TextDraw>,
    pub second: Option<TextDraw>,
}

/// The rules text of a half as drawn: on a fuse card without the fuse
/// reminder.
pub open spec fn half_rules(card: OracleScryfallCard, i: int, fused: bool) -> Option<Seq<char>> {
    match half_field(card, i, |f: CardFace| f.oracle_text, card.core.oracle_text) {
        Some(t) => Some(if fused {
            replace_all(t@, fuse_reminder(), Seq::empty())
        } else {
            t@
        }),
        None => None,
    }
}

/// Draws the rules texts of both halves of a split card.
pub struct SplitOracleTextRenderer;

impl SplitOracleTextRenderer {
    /// The texts, each centred on its half (the first on the lower half),
    /// starting right of the first type line's end, at the larger size when
    /// it is wide; and on a fuse card the reminder, taken out of both
    /// halves and set once along the right edge, centred. The widths are
    /// each text's widest line at its style's size.
    pub fn plan(
        layout: &Layout,
        split: &SplitLayout,
        card: &OracleScryfallCard,
        fused: bool,
        reminder_width: Extent,
        first_width: Extent,
        second_width: Extent,
        canvas_height: u32,
    ) -> (p: SplitTexts)
        requires
            split.fuse_reminder_text.margin_right <= layout.width,
            layout.height <= i32::MAX,
            layout.height / 2 + reminder_width.whole / 2 <= i32::MAX,
            canvas_height * 3 / 4 + half_rounded(first_width) <= i32::MAX,
            canvas_height / 4 + half_rounded(second_width) <= i32::MAX,
        ensures
            p.reminder is Some <==> fused,
            p.reminder matches Some(d) ==> draws_split(d, fuse_reminder(),
                (layout.width - split.fuse_reminder_text.margin_right) as i32 as int,
                layout.height / 2 + reminder_width.whole / 2, split.fuse_reminder_text,
                split.fuse_reminder_text.font_size),
            p.first is Some <==> half_rules(*card, 0, fused) is Some,
            p.second is Some <==> half_rules(*card, 1, fused) is Some,
            p.first matches Some(d) ==> draws_split(d, half_rules(*card, 0, fused)->0,
                larger(split.first_oracle_text.x as int, split.first_line_end_x as int),
                canvas_height * 3 / 4 + half_rounded(first_width), split.first_oracle_text,
                large_when_wide(split.first_oracle_text, first_width)),
            p.second matches Some(d) ==> draws_split(d, half_rules(*card, 1, fused)->0,
                larger(split.second_oracle_text.x as int, split.first_line_end_x as int),
                canvas_height / 4 + half_rounded(second_width), split.second_oracle_text,
                large_when_wide(split.second_oracle_text, second_width)),
    {
        let first = match face_ref(card, 0) {
            Some(f) => clone_opt(&f.oracle_text),
            None => clone_opt(&card.core.oracle_text),
        };
        let second = match face_ref(card, 1) {
            Some(f) => clone_opt(&f.oracle_text),
            None => clone_opt(&card.core.oracle_text),
        };
        let reminder_text = "\nFuse (You may cast one or both halves of this card from your hand.)";
        proof {
            reveal_strlit("\nFuse (You may cast one or both halves of this card from your hand.)");
            reveal_strlit("");
            assert(reminder_text@ == fuse_reminder());
            assert(""@ == Seq::<char>::empty());
        }
        let first = if fused {
            match first {
                Some(t) => Some(replace_text(t.as_str(), reminder_text, "")),
                None => None,
            }
        } else {
            first
        };
        let second = if fused {
            match second {
                Some(t) => Some(replace_text(t.as_str(), reminder_text, "")),
                None => None,
            }
        } else {
            second
        };
        let reminder = if fused {
            let s = &split.fuse_reminder_text;
            let x = (layout.width - s.margin_right) as i32;
            let y = (layout.height / 2 + reminder_width.whole / 2) as i32;
            Some(draw_split(String::from_str(reminder_text), x, y, s, s.font_size))
        } else {
            None
        };
        let a = match first {
            Some(t) => {
                let s = &split.first_oracle_text;
                let x = if s.x >= split.first_line_end_x {
                    s.x
                } else {
                    split.first_line_end_x
                };
                let size = size_large_when_wide(s, first_width);
                let y = (canvas_height as u64 * 3 / 4 + first_width.half_rounded() as u64) as i32;
                Some(draw_split(t, x, y, s, size))
            },
            None => None,
        };
        let b = match second {
            Some(t) => {
                let s = &split.second_oracle_text;
                let x = if s.x >= split.first_line_end_x {
                    s.x
                } else {
                    split.first_line_end_x
                };
                let size = size_large_when_wide(s, second_width);
                let y = (canvas_height as u64 / 4 + second_width.half_rounded() as u64) as i32;
                Some(draw_split(t, x, y, s, size))
            },
            None => None,
        };
        SplitTexts { reminder, first: a, second: b }
    }
}

} // verus!
