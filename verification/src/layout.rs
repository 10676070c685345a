use vstd::prelude::*;

verus! {

/// The two typefaces a card is printed with.
#[derive(Debug, Clone, Copy, PartialEq, Eq, Structural)]
pub enum Font {
    Serif,
    Sansserif,
}

/// The file of each typeface: MPlantin for serif text, Tahoma for sans
/// serif text.
pub open spec fn font_file(font: Font) -> Seq<char> {
    match font {
        Font::Serif => "Mplantin.ttf"@,
        Font::Sansserif => "tahoma.ttf"@,
    }
}

/// The font file that a typeface is drawn from.
pub fn get_font(font: Font) -> (name: &'static str)
    ensures
        name@ == font_file(font),
{
    match font {
        Font::Serif => {
            let n = "Mplantin.ttf";
            proof {
                reveal_strlit("Mplantin.ttf");
            }
            n
        },
        Font::Sansserif => {
            let n = "tahoma.ttf";
            proof {
                reveal_strlit("tahoma.ttf");
            }
            n
        },
    }
}

/// Where and how a piece of text is drawn. Font sizes and letter spacing
/// are counted in half pixels (a size of 17 pixels is 34).
#[derive(Debug, Clone, Copy, PartialEq, Eq, Structural)]
pub struct TextStyle {
    pub x: i32,
    pub y: i32,
    pub font: Font,
    pub margin_left: u32,
    pub margin_right: u32,
    pub font_size: u32,
    pub long_text_font_size: Option<u32>,
    pub letter_spacing: i32,
    pub wrap_width: i32,
}

/// The style that every field of a text style starts from.
pub open spec fn text_style_default() -> TextStyle {
    TextStyle {
        x: 0,
        y: 0,
        font_size: 0,
        margin_left: 0,
        margin_right: 0,
        font: Font::Sansserif,
        long_text_font_size: None,
        letter_spacing: 0,
        wrap_width: 372,
    }
}

impl Default for TextStyle {
    fn default() -> (s: Self)
        ensures
            s == text_style_default(),
    {
        TextStyle {
            x: 0,
            y: 0,
            font_size: 0,
            margin_left: 0,
            margin_right: 0,
            font: Font::Sansserif,
            long_text_font_size: None,
            letter_spacing: 0,
            wrap_width: 372,
        }
    }
}

/// The font sizes of the card elements, in half pixels.
#[derive(Debug, Clone, Copy, PartialEq, Eq, Structural)]
pub struct FontSizes {
    pub name: u32,
    pub long_name: u32,
    pub type_line: u32,
    pub adventure_type_line: u32,
    pub adventure_name: u32,
    pub long_adventure_name: u32,
    pub rules: u32,
    pub small_rules: u32,
    pub flavor: u32,
    pub pow_tough: u32,
    pub set_code: u32,
    pub cost: u32,
    pub long_cost: u32,
    pub artist: u32,
    pub artist_small: u32,
}

/// The standard font sizes (34, 22, 18, ... pixels, counted in halves).
pub open spec fn font_sizes_default() -> FontSizes {
    FontSizes {
        name: 68,
        long_name: 44,
        type_line: 36,
        adventure_type_line: 32,
        small_rules: 30,
        rules: 32,
        pow_tough: 60,
        flavor: 34,
        set_code: 32,
        artist: 32,
        artist_small: 28,
        cost: 36,
        long_cost: 28,
        adventure_name: 32,
        long_adventure_name: 28,
    }
}

impl Default for FontSizes {
    fn default() -> (f: Self)
        ensures
            f == font_sizes_default(),
    {
        FontSizes {
            name: 68,
            long_name: 44,
            type_line: 36,
            adventure_type_line: 32,
            small_rules: 30,
            rules: 32,
            pow_tough: 60,
            flavor: 34,
            set_code: 32,
            artist: 32,
            artist_small: 28,
            cost: 36,
            long_cost: 28,
            adventure_name: 32,
            long_adventure_name: 28,
        }
    }
}

/// The box that card art is fitted into.
#[derive(Debug, Clone, Copy, PartialEq, Eq, Structural)]
pub struct ArtLayout {
    pub x: i64,
    pub y: i64,
    pub margin_right: Option<i64>,
    pub max_width: u32,
    pub max_height: u32,
}

/// The box that an SVG icon is fitted into.
#[derive(Debug, Clone, Copy, PartialEq, Eq, Structural)]
pub struct SvgLayout {
    pub x: u32,
    pub y: u32,
    pub width: u32,
    pub height: u32,
}

/// Coordinates of the path along the card border that a long name follows.
#[derive(Debug, Clone, Copy, PartialEq, Eq, Structural)]
pub struct BorderPathLayout {
    /// X coordinate baseline for vertical text along the left border.
    pub left_x: i32,
    /// Y coordinate baseline for horizontal text along the top border.
    pub top_y: i32,
    /// X coordinate baseline for vertical text along the right border.
    pub right_x: i32,
    /// Starting X coordinate where text begins on the top edge.
    pub top_start_x: i32,
    /// Ending X coordinate where text stops on the top edge.
    pub top_end_x: i32,
    /// Y coordinate at the bottom boundary of the left side path.
    pub left_side_bottom_y: i32,
    /// Y coordinate at the top boundary of the left side path.
    pub left_side_top_y: i32,
    /// Y coordinate at the top boundary of the right side path.
    pub right_side_top_y: i32,
    /// Y coordinate at the bottom boundary of the right side path.
    pub right_side_bottom_y: i32,
    /// X coordinate on the right where text turns along the bottom border.
    pub bottom_x_start: i32,
    /// X coordinate where text stops on the bottom border.
    pub bottom_x_end: i32,
    /// Y coordinate baseline for upside-down text along the bottom border.
    pub bottom_y: i32,
    /// Y coordinate where the path starts back up the left border.
    pub left_side_return_bottom_y: i32,
    /// Y coordinate where the path ends on the left border.
    pub left_side_return_top_y: i32,
}

/// The border path of a standard card.
pub open spec fn border_path_default() -> BorderPathLayout {
    BorderPathLayout {
        left_x: 20,
        top_y: 28,
        right_x: 390,
        top_start_x: 25,
        top_end_x: 380,
        left_side_bottom_y: 330,
        left_side_top_y: 25,
        right_side_top_y: 25,
        right_side_bottom_y: 535,
        bottom_x_start: 375,
        bottom_x_end: 25,
        bottom_y: 546,
        left_side_return_bottom_y: 535,
        left_side_return_top_y: 360,
    }
}

impl Default for BorderPathLayout {
    fn default() -> (b: Self)
        ensures
            b == border_path_default(),
    {
        BorderPathLayout {
            left_x: 20,
            top_y: 28,
            right_x: 390,
            top_start_x: 25,
            top_end_x: 380,
            left_side_bottom_y: 330,
            left_side_top_y: 25,
            right_side_top_y: 25,
            right_side_bottom_y: 535,
            bottom_x_start: 375,
            bottom_x_end: 25,
            bottom_y: 546,
            left_side_return_bottom_y: 535,
            left_side_return_top_y: 360,
        }
    }
}

/// The distance along the path at which text reaches the bottom edge: the
/// left side, the top and the right side together.
pub open spec fn spec_bottom_threshold(p: BorderPathLayout) -> int {
    (p.left_side_bottom_y - p.left_side_top_y) + (p.top_end_x - p.top_start_x) + (
    p.right_side_bottom_y - p.right_side_top_y)
}

impl BorderPathLayout {
    /// Distance along the path where text reaches the bottom edge.
    pub fn bottom_threshold(&self) -> (d: i64)
        ensures
            d == spec_bottom_threshold(*self),
    {
        (self.left_side_bottom_y as i64 - self.left_side_top_y as i64) + (self.top_end_x as i64
            - self.top_start_x as i64) + (self.right_side_bottom_y as i64
            - self.right_side_top_y as i64)
    }
}

} // verus!

verus! {

/// How far a long name runs along the card border.
#[derive(Debug, Clone, Copy, PartialEq, Eq, Structural)]
pub enum WrapStyle {
    Standard,
    SemiWrap,
    FullWrap,
}

/// Whether the name is set in the normal or the long-name size.
#[derive(Debug, Clone, Copy, PartialEq, Eq, Structural)]
pub enum NameStyle {
    Standard,
    LongName,
}

/// The positions and styles of every element of a card image. The font
/// files themselves are not held here: `Layout::font_data` of the program
/// maps a `Font` to its bytes.
#[derive(Debug, Clone, Copy, PartialEq, Eq, Structural)]
pub struct Layout {
    pub width: u32,
    pub height: u32,
    pub wrap_style: WrapStyle,
    pub name_style: NameStyle,
    pub adventure_oracle_text_main_face: TextStyle,
    pub adventure_type_line: TextStyle,
    pub font_sizes: FontSizes,
    pub art: ArtLayout,
    pub meld_card_back_art: ArtLayout,
    pub name: TextStyle,
    pub cost: TextStyle,
    pub set_icon: SvgLayout,
    pub type_line: TextStyle,
    pub rules: TextStyle,
    pub flavor: TextStyle,
    pub type_line_end_y: i32,
    pub set_code: TextStyle,
    pub artist: TextStyle,
    pub pow_tough_style: TextStyle,
    pub border_path: BorderPathLayout,
    pub adventure_oracle_text_alt_face: TextStyle,
    pub adventure_mana_cost: TextStyle,
    pub adventure_name: TextStyle,
}

/// The layout of a standard 416 by 576 pixel card.
pub open spec fn layout_default() -> Layout {
    let fonts = font_sizes_default();
    let d = text_style_default();
    Layout {
        width: 416,
        height: 576,
        wrap_style: WrapStyle::Standard,
        name_style: NameStyle::Standard,
        border_path: border_path_default(),
        font_sizes: fonts,
        art: ArtLayout { x: 60, y: 76, margin_right: None, max_width: 300, max_height: 200 },
        meld_card_back_art: ArtLayout {
            margin_right: Some(0),
            x: 0,
            y: 0,
            max_width: 396,
            max_height: 556,
        },
        name: TextStyle {
            x: 20,
            y: 35,
            font: Font::Serif,
            font_size: fonts.name,
            long_text_font_size: Some(fonts.long_name),
            letter_spacing: 0,
            wrap_width: 372,
            ..d
        },
        adventure_name: TextStyle {
            x: 20,
            y: 364,
            font: Font::Serif,
            font_size: fonts.adventure_name,
            long_text_font_size: Some(fonts.long_adventure_name),
            letter_spacing: 3,
            wrap_width: 372,
            ..d
        },
        cost: TextStyle {
            y: 55,
            font: Font::Serif,
            font_size: fonts.cost,
            letter_spacing: 2,
            wrap_width: 120,
            margin_right: 26,
            ..d
        },
        adventure_mana_cost: TextStyle {
            y: 384,
            font: Font::Serif,
            font_size: fonts.long_cost,
            letter_spacing: 3,
            wrap_width: 120,
            margin_left: 20,
            ..d
        },
        type_line: TextStyle {
            x: 20,
            y: 310,
            font: Font::Sansserif,
            font_size: fonts.type_line,
            wrap_width: 372,
            letter_spacing: 2,
            ..d
        },
        type_line_end_y: 20,
        adventure_type_line: TextStyle {
            x: 20,
            y: 310,
            font: Font::Sansserif,
            font_size: fonts.adventure_type_line,
            wrap_width: 372,
            letter_spacing: 2,
            ..d
        },
        rules: TextStyle {
            x: 20,
            y: 344,
            font: Font::Sansserif,
            font_size: fonts.rules,
            letter_spacing: 2,
            wrap_width: 372,
            ..d
        },
        adventure_oracle_text_main_face: TextStyle {
            x: 224,
            y: 344,
            font: Font::Sansserif,
            font_size: fonts.rules,
            long_text_font_size: Some(fonts.small_rules),
            letter_spacing: 2,
            wrap_width: 180,
            ..d
        },
        adventure_oracle_text_alt_face: TextStyle {
            x: 20,
            y: 404,
            font: Font::Sansserif,
            font_size: fonts.rules,
            letter_spacing: 2,
            wrap_width: 186,
            ..d
        },
        flavor: TextStyle {
            x: 20,
            y: 0,
            font: Font::Serif,
            font_size: fonts.flavor,
            wrap_width: 372,
            ..d
        },
        set_icon: SvgLayout { x: 36, y: 508, width: 40, height: 40 },
        set_code: TextStyle {
            x: 30,
            y: 566,
            font: Font::Sansserif,
            font_size: fonts.set_code,
            wrap_width: 372,
            letter_spacing: 4,
            ..d
        },
        artist: TextStyle {
            x: 120,
            y: 566,
            font: Font::Sansserif,
            font_size: fonts.artist,
            long_text_font_size: Some(fonts.artist_small),
            wrap_width: 200,
            letter_spacing: 3,
            ..d
        },
        pow_tough_style: TextStyle {
            x: 330,
            y: 566,
            font: Font::Serif,
            font_size: fonts.pow_tough,
            letter_spacing: 2,
            wrap_width: 62,
            ..d
        },
    }
}

impl Default for Layout {
    fn default() -> (l: Self)
        ensures
            l == layout_default(),
    {
        let fonts = FontSizes::default();
        Self {
            width: 416,
            height: 576,
            wrap_style: WrapStyle::Standard,
            name_style: NameStyle::Standard,
            border_path: BorderPathLayout::default(),
            font_sizes: fonts,
            art: ArtLayout { x: 60, y: 76, margin_right: None, max_width: 300, max_height: 200 },
            meld_card_back_art: ArtLayout {
                margin_right: Some(0),
                x: 0,
                y: 0,
                max_width: 396,
                max_height: 556,
            },
            name: TextStyle {
                x: 20,
                y: 35,
                font: Font::Serif,
                font_size: fonts.name,
                long_text_font_size: Some(fonts.long_name),
                letter_spacing: 0,
                wrap_width: 372,
                ..Default::default()
            },
            adventure_name: TextStyle {
                x: 20,
                y: 364,
                font: Font::Serif,
                font_size: fonts.adventure_name,
                long_text_font_size: Some(fonts.long_adventure_name),
                letter_spacing: 3,
                wrap_width: 372,
                ..Default::default()
            },
            cost: TextStyle {
                y: 55,
                font: Font::Serif,
                font_size: fonts.cost,
                letter_spacing: 2,
                wrap_width: 120,
                margin_right: 26,
                ..Default::default()
            },
            adventure_mana_cost: TextStyle {
                y: 384,
                font: Font::Serif,
                font_size: fonts.long_cost,
                letter_spacing: 3,
                wrap_width: 120,
                margin_left: 20,
                ..Default::default()
            },
            type_line: TextStyle {
                x: 20,
                y: 310,
                font: Font::Sansserif,
                font_size: fonts.type_line,
                wrap_width: 372,
                letter_spacing: 2,
                ..Default::default()
            },
            type_line_end_y: 20,
            adventure_type_line: TextStyle {
                x: 20,
                y: 310,
                font: Font::Sansserif,
                font_size: fonts.adventure_type_line,
                wrap_width: 372,
                letter_spacing: 2,
                ..Default::default()
            },
            rules: TextStyle {
                x: 20,
                y: 344,
                font: Font::Sansserif,
                font_size: fonts.rules,
                letter_spacing: 2,
                wrap_width: 372,
                ..Default::default()
            },
            adventure_oracle_text_main_face: TextStyle {
                x: 224,
                y: 344,
                font: Font::Sansserif,
                font_size: fonts.rules,
                long_text_font_size: Some(fonts.small_rules),
                letter_spacing: 2,
                wrap_width: 180,
                ..Default::default()
            },
            adventure_oracle_text_alt_face: TextStyle {
                x: 20,
                y: 404,
                font: Font::Sansserif,
                font_size: fonts.rules,
                letter_spacing: 2,
                wrap_width: 186,
                ..Default::default()
            },
            flavor: TextStyle {
                x: 20,
                y: 0,
                font: Font::Serif,
                font_size: fonts.flavor,
                wrap_width: 372,
                ..Default::default()
            },
            set_icon: SvgLayout { x: 36, y: 508, width: 40, height: 40 },
            set_code: TextStyle {
                x: 30,
                y: 566,
                font: Font::Sansserif,
                font_size: fonts.set_code,
                wrap_width: 372,
                letter_spacing: 4,
                ..Default::default()
            },
            artist: TextStyle {
                x: 120,
                y: 566,
                font: Font::Sansserif,
                font_size: fonts.artist,
                long_text_font_size: Some(fonts.artist_small),
                wrap_width: 200,
                letter_spacing: 3,
                ..Default::default()
            },
            pow_tough_style: TextStyle {
                x: 330,
                y: 566,
                font: Font::Serif,
                font_size: fonts.pow_tough,
                letter_spacing: 2,
                wrap_width: 62,
                ..Default::default()
            },
        }
    }
}

/// The layout after the adjustments that a wrap style calls for.
pub open spec fn wrap_adjusted(style: WrapStyle, l: Layout) -> Layout {
    let fonts = font_sizes_default();
    match style {
        WrapStyle::Standard => l,
        WrapStyle::SemiWrap => Layout {
            type_line: TextStyle { x: 35, ..l.type_line },
            rules: TextStyle { x: 35, wrap_width: 350, ..l.rules },
            cost: TextStyle { margin_right: 35, ..l.cost },
            ..l
        },
        WrapStyle::FullWrap => Layout {
            type_line: TextStyle { x: 35, ..l.type_line },
            rules: TextStyle {
                x: 35,
                wrap_width: 350,
                font_size: fonts.small_rules,
                letter_spacing: 3,
                ..l.rules
            },
            set_icon: SvgLayout { x: 43, y: 468, ..l.set_icon },
            set_code: TextStyle { x: 40, y: 530, letter_spacing: 2, ..l.set_code },
            artist: TextStyle {
                x: 130,
                y: 530,
                letter_spacing: 3,
                font_size: fonts.artist_small,
                ..l.artist
            },
            pow_tough_style: TextStyle { x: 330, y: 530, ..l.pow_tough_style },
            cost: TextStyle { margin_right: 35, ..l.cost },
            ..l
        },
    }
}

impl WrapStyle {
    /// Applies the layout adjustments associated with the wrapping style:
    /// the text that a wrapped name now borders moves inwards.
    pub fn apply_layout_adjustments(self, layout: &mut Layout)
        ensures
            *final(layout) == wrap_adjusted(self, *old(layout)),
    {
        let fonts = FontSizes::default();
        match self {
            WrapStyle::Standard => {},
            WrapStyle::SemiWrap => {
                layout.type_line.x = 35;
                layout.rules.x = 35;
                layout.cost.margin_right = 35;
                layout.rules.wrap_width = 350;
            },
            WrapStyle::FullWrap => {
                layout.type_line.x = 35;
                layout.rules.x = 35;
                layout.rules.wrap_width = 350;
                layout.rules.font_size = fonts.small_rules;
                layout.rules.letter_spacing = 3;
                layout.set_icon.x = 43;
                layout.set_icon.y = 468;
                layout.set_code.x = 40;
                layout.set_code.y = 530;
                layout.set_code.letter_spacing = 2;
                layout.artist.x = 130;
                layout.artist.y = 530;
                layout.artist.letter_spacing = 3;
                layout.artist.font_size = fonts.artist_small;
                layout.pow_tough_style.x = 330;
                layout.pow_tough_style.y = 530;
                layout.cost.margin_right = 35;
            },
        }
    }
}

/// The layout after the adjustments that a name style calls for.
pub open spec fn name_adjusted(style: NameStyle, l: Layout) -> Layout {
    match style {
        NameStyle::Standard => l,
        NameStyle::LongName => Layout {
            name: TextStyle {
                font_size: font_sizes_default().long_name,
                letter_spacing: 2,
                ..l.name
            },
            ..l
        },
    }
}

impl NameStyle {
    /// Applies the layout adjustments associated with the name style: a
    /// long name is set smaller and spaced wider.
    pub fn apply_layout_adjustments(self, layout: &mut Layout)
        ensures
            *final(layout) == name_adjusted(self, *old(layout)),
    {
        let fonts = FontSizes::default();
        match self {
            NameStyle::Standard => {},
            NameStyle::LongName => {
                layout.name.font_size = fonts.long_name;
                layout.name.letter_spacing = 2;
            },
        }
    }
}

/// Adjusting a layout for a wrap style twice is adjusting it once.
pub proof fn law_wrap_adjustment_idempotent(style: WrapStyle, l: Layout)
    ensures
        wrap_adjusted(style, wrap_adjusted(style, l)) == wrap_adjusted(style, l),
{
}

/// Adjusting a layout for a name style twice is adjusting it once.
pub proof fn law_name_adjustment_idempotent(style: NameStyle, l: Layout)
    ensures
        name_adjusted(style, name_adjusted(style, l)) == name_adjusted(style, l),
{
}

/// The two adjustments touch different fields, so their order does not
/// matter.
pub proof fn law_adjustments_commute(n: NameStyle, w: WrapStyle, l: Layout)
    ensures
        wrap_adjusted(w, name_adjusted(n, l)) == name_adjusted(n, wrap_adjusted(w, l)),
{
}

} // verus!
