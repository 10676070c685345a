use vstd::prelude::*;

use crate::cards::{CardFace, OracleScryfallCard};
use crate::layout::{Layout, SvgLayout, TextStyle};
use crate::renderers::{
    draws, face_value, larger, name_of, oracle_text_of, set_line_of, type_line_of, OracleTextRenderer,
    SetCodeRenderer, TextDraw, TypeLineRenderer,
};
use crate::typeset::{exceeds, half_rounded, Extent};

verus! {

/// What the renderers of a melded card's back read beyond the card's common
/// layout. The back is printed on its side: its texts run up the page,
/// centred from top to bottom. The type line renderer leaves where the type
/// line ended, for the rules text.
#[derive(Debug, Clone, Copy, PartialEq, Eq, Structural)]
pub struct MeldLayout {
    pub name: TextStyle,
    pub type_line: TextStyle,
    pub oracle: TextStyle,
    pub set_code: TextStyle,
    pub loyalty_shield: SvgLayout,
    pub type_line_end_x: i32,
}

/// The size of the name on a meld back: the smaller size (when the style
/// has one) for a name wider than its box.
pub open spec fn meld_name_size(style: TextStyle, width: Extent) -> u32 {
    match style.long_text_font_size {
        Some(s) => if exceeds(width, style.wrap_width as int) {
            s
        } else {
            style.font_size
        },
        None => style.font_size,
    }
}

/// The baseline that centres text `width` wide on a page `height` tall,
/// when the text runs up the page.
pub open spec fn centred_baseline(height: u32, width: Extent) -> int {
    height / 2 + half_rounded(width)
}

/// Draws the name on the back of a meld pair, up the left edge.
pub struct MeldNameRenderer;

impl MeldNameRenderer {
    /// The name (the face's, else the card's), centred up the page.
    pub fn plan(layout: &Layout, meld: &MeldLayout, card: &OracleScryfallCard, face: Option<&CardFace>, name_width: Extent) -> (d: TextDraw)
        requires
            centred_baseline(layout.height, name_width) <= i32::MAX,
        ensures
            draws(d, name_of(*card, face_value(face)), meld.name.x as int, centred_baseline(layout.height, name_width),
                meld.name, meld_name_size(meld.name, name_width)),
    {
        let style = &meld.name;
        let name = match face {
            Some(f) => f.name.clone(),
            None => card.core.name.clone(),
        };
        let size = match style.long_text_font_size {
            Some(s) => if name_width.exceeds(style.wrap_width as i64) {
                s
            } else {
                style.font_size
            },
            None => style.font_size,
        };
        let y = (layout.height / 2 + name_width.half_rounded()) as i32;
        TextDraw {
            text: name,
            x: style.x,
            y,
            font: style.font,
            font_size: size,
            letter_spacing: style.letter_spacing,
            wrap_width: style.wrap_width,
        }
    }
}

/// Draws the type line on the back of a meld pair.
pub struct MeldTypeLineRenderer;

impl MeldTypeLineRenderer {
    /// The type line (the face's, else the card's, else nothing), centred up
    /// the page; the drawing gives back where it ended, which the meld
    /// layout keeps for the rules text.
    pub fn plan(layout: &Layout, meld: &MeldLayout, card: &OracleScryfallCard, face: Option<&CardFace>, type_width: Extent) -> (d: TextDraw)
        requires
            centred_baseline(layout.height, type_width) <= i32::MAX,
        ensures
            draws(d, type_line_of(*card, face_value(face)), meld.type_line.x as int,
                centred_baseline(layout.height, type_width), meld.type_line, meld.type_line.font_size),
    {
        let mut shaped = *layout;
        shaped.type_line = meld.type_line;
        let base = TypeLineRenderer::plan(&shaped, card, face);
        let y = (layout.height / 2 + type_width.half_rounded()) as i32;
        TextDraw { y, ..base }
    }
}

/// Draws the rules text on the back of a meld pair.
pub struct MeldOracleTextRenderer;

impl MeldOracleTextRenderer {
    /// The rules text (the face's, else the card's, else nothing), right of
    /// the type line, centred up a canvas `canvas_height` tall. The width is
    /// the text's widest line.
    pub fn plan(
        layout: &Layout,
        meld: &MeldLayout,
        card: &OracleScryfallCard,
        face: Option<&CardFace>,
        text_width: Extent,
        canvas_height: u32,
    ) -> (d: TextDraw)
        requires
            centred_baseline(canvas_height, text_width) <= i32::MAX,
        ensures
            draws(d, oracle_text_of(*card, face_value(face)), larger(meld.oracle.x as int, meld.type_line_end_x as int),
                centred_baseline(canvas_height, text_width), meld.oracle, meld.oracle.font_size),
    {
        let mut shaped = *layout;
        shaped.rules = meld.oracle;
        shaped.type_line_end_y = i32::MIN;
        let base = OracleTextRenderer::plan(&shaped, card, face);
        let x = if meld.oracle.x >= meld.type_line_end_x {
            meld.oracle.x
        } else {
            meld.type_line_end_x
        };
        let y = (canvas_height / 2 + text_width.half_rounded()) as i32;
        TextDraw { x, y, ..base }
    }
}

/// Draws the planeswalker loyalty shield on the back of a meld pair, in its
/// box of the meld layout.
pub struct MeldPlaneswalkerShieldRenderer;

/// Draws the set code and collector number on the back of a meld pair,
/// along the right edge.
pub struct MeldSetCodeRenderer;

impl MeldSetCodeRenderer {
    /// The set code line, at the margin from the right edge.
    pub fn plan(layout: &Layout, meld: &MeldLayout, card: &OracleScryfallCard) -> (d: TextDraw)
        requires
            meld.set_code.margin_right <= layout.width,
        ensures
            draws(d, set_line_of(*card), (layout.width - meld.set_code.margin_right) as i32 as int, meld.set_code.y as int,
                meld.set_code, meld.set_code.font_size),
    {
        let mut shaped = *layout;
        shaped.set_code = meld.set_code;
        let base = SetCodeRenderer::plan(&shaped, card);
        TextDraw { x: (layout.width - meld.set_code.margin_right) as i32, ..base }
    }
}

} // verus!
