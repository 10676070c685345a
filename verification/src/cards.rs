use vstd::prelude::*;

use crate::text::{same_text, split_words, views, words};

verus! {

/// Image locations of a card in Scryfall's sizes.
#[derive(Debug, Clone)]
pub struct ImageUris {
    pub small: Option<String>,
    pub normal: Option<String>,
    pub large: Option<String>,
    pub png: Option<String>,
    pub art_crop: Option<String>,
    pub border_crop: Option<String>,
}

/// Market prices of a card, as Scryfall gives them.
#[derive(Debug, Clone)]
pub struct Prices {
    pub usd: Option<String>,
    pub usd_foil: Option<String>,
    pub usd_etched: Option<String>,
    pub eur: Option<String>,
    pub eur_foil: Option<String>,
    pub tix: Option<String>,
}

/// A card that a card refers to (a token it makes, a meld part, ...).
#[derive(Debug, Clone)]
pub struct RelatedCard {
    pub object: String,
    pub id: String,
    pub component: String,
    pub name: String,
    pub type_line: String,
    pub uri: String,
}

/// One face of a card with several faces.
#[derive(Debug, Clone)]
pub struct CardFace {
    pub object: String,
    pub name: String,
    pub mana_cost: Option<String>,
    pub type_line: Option<String>,
    pub oracle_text: Option<String>,
    pub colors: Option<Vec<String>>,
    pub power: Option<String>,
    pub toughness: Option<String>,
    pub loyalty: Option<String>,
    pub defense: Option<String>,
    pub flavor_text: Option<String>,
    pub illustration_id: Option<String>,
    pub image_uris: Option<ImageUris>,
}

/// Where and when a card was previewed.
#[derive(Debug, Clone)]
pub struct PreviewInfo {
    pub source: Option<String>,
    pub source_uri: Option<String>,
    pub previewed_at: Option<String>,
}

/// The physical layout of a card.
#[derive(Debug, Clone, Copy, PartialEq, Eq, Structural)]
pub enum CardLayout {
    Normal,
    Split,
    Flip,
    Transform,
    ModalDFC,
    Meld,
    Leveler,
    Class,
    Case,
    Saga,
    Adventure,
    Mutate,
    Prototype,
    Battle,
    Planar,
    Scheme,
    Vanguard,
    Token,
    DoubleFacedToken,
    Emblem,
    Augment,
    Host,
    ArtSeries,
    ReversibleCard,
    FrontCard,
    Prepare,
}

/// The name Scryfall gives a layout.
pub open spec fn layout_name(l: CardLayout) -> Seq<char> {
    match l {
        CardLayout::Normal => "normal"@,
        CardLayout::Split => "split"@,
        CardLayout::Flip => "flip"@,
        CardLayout::Transform => "transform"@,
        CardLayout::ModalDFC => "modal_dfc"@,
        CardLayout::Meld => "meld"@,
        CardLayout::Leveler => "leveler"@,
        CardLayout::Class => "class"@,
        CardLayout::Case => "case"@,
        CardLayout::Saga => "saga"@,
        CardLayout::Adventure => "adventure"@,
        CardLayout::Prepare => "prepare"@,
        CardLayout::Mutate => "mutate"@,
        CardLayout::Prototype => "prototype"@,
        CardLayout::Battle => "battle"@,
        CardLayout::Planar => "planar"@,
        CardLayout::Scheme => "scheme"@,
        CardLayout::Vanguard => "vanguard"@,
        CardLayout::Token => "token"@,
        CardLayout::DoubleFacedToken => "double_faced_token"@,
        CardLayout::Emblem => "emblem"@,
        CardLayout::Augment => "augment"@,
        CardLayout::Host => "host"@,
        CardLayout::ArtSeries => "art_series"@,
        CardLayout::ReversibleCard => "reversible_card"@,
        CardLayout::FrontCard => "front_card"@,
    }
}

impl CardLayout {
    /// The name Scryfall gives this layout (what the layout displays as).
    pub fn as_str(&self) -> (s: &'static str)
        ensures
            s@ == layout_name(*self),
    {
        match self {
            CardLayout::Normal => "normal",
            CardLayout::Split => "split",
            CardLayout::Flip => "flip",
            CardLayout::Transform => "transform",
            CardLayout::ModalDFC => "modal_dfc",
            CardLayout::Meld => "meld",
            CardLayout::Leveler => "leveler",
            CardLayout::Class => "class",
            CardLayout::Case => "case",
            CardLayout::Saga => "saga",
            CardLayout::Adventure => "adventure",
            CardLayout::Prepare => "prepare",
            CardLayout::Mutate => "mutate",
            CardLayout::Prototype => "prototype",
            CardLayout::Battle => "battle",
            CardLayout::Planar => "planar",
            CardLayout::Scheme => "scheme",
            CardLayout::Vanguard => "vanguard",
            CardLayout::Token => "token",
            CardLayout::DoubleFacedToken => "double_faced_token",
            CardLayout::Emblem => "emblem",
            CardLayout::Augment => "augment",
            CardLayout::Host => "host",
            CardLayout::ArtSeries => "art_series",
            CardLayout::ReversibleCard => "reversible_card",
            CardLayout::FrontCard => "front_card",
        }
    }
}

/// The game formats that Scryfall reports legality for.
#[derive(Debug, Clone, Copy, PartialEq, Eq, Hash, Structural)]
pub enum FormatLegality {
    Standard,
    Future,
    Historic,
    Timeless,
    Gladiator,
    Pioneer,
    Modern,
    Legacy,
    Pauper,
    Vintage,
    Penny,
    Commander,
    Oathbreaker,
    Standardbrawl,
    Brawl,
    Competitivebrawl,
    Alchemy,
    Paupercommander,
    Duel,
    Oldschool,
    Premodern,
    Predh,
    Tlr,
}

/// What a legality word of Scryfall means: playable (`legal`,
/// `restricted`), not playable (`not_legal`, `banned`), or an error that
/// names the unknown word.
pub open spec fn legality_meaning(word: Seq<char>) -> Result<bool, Seq<char>> {
    if word == "legal"@ || word == "restricted"@ {
        Ok(true)
    } else if word == "not_legal"@ || word == "banned"@ {
        Ok(false)
    } else {
        Err("unknown legality value: "@ + word)
    }
}

/// Reads a legality word of Scryfall: whether the card may be played.
pub fn parse_legality(word: &str) -> (r: Result<bool, String>)
    ensures
        match r {
            Ok(b) => legality_meaning(word@) == Ok::<bool, Seq<char>>(b),
            Err(e) => legality_meaning(word@) == Err::<bool, Seq<char>>(e@),
        },
{
    if same_text(word, "legal") || same_text(word, "restricted") {
        Ok(true)
    } else if same_text(word, "not_legal") || same_text(word, "banned") {
        Ok(false)
    } else {
        let mut msg = String::from_str("unknown legality value: ");
        msg.append(word);
        Err(msg)
    }
}


/// Reads the legality words of a card, format by format: every word read,
/// or the error of an unknown one.
pub fn parse_legalities(raw: &Vec<(FormatLegality, String)>) -> (r: Result<Vec<(FormatLegality, bool)>, String>)
    ensures
        r is Ok <==> forall|i: int| 0 <= i < raw@.len() ==> (#[trigger] legality_meaning(raw@[i].1@)) is Ok,
        r matches Ok(v) ==> v@.len() == raw@.len() && forall|i: int| 0 <= i < raw@.len() ==>
            (#[trigger] v@[i]).0 == raw@[i].0 && legality_meaning(raw@[i].1@) == Ok::<bool, Seq<char>>(v@[i].1),
        r matches Err(e) ==> exists|i: int| 0 <= i < raw@.len() && (#[trigger] legality_meaning(raw@[i].1@))
            == Err::<bool, Seq<char>>(e@),
{
    let mut out: Vec<(FormatLegality, bool)> = Vec::new();
    let mut i: usize = 0;
    while i < raw.len()
        invariant
            i <= raw@.len(),
            out@.len() == i,
            forall|k: int| 0 <= k < i ==> (#[trigger] legality_meaning(raw@[k].1@)) is Ok,
            forall|k: int| 0 <= k < i ==> (#[trigger] out@[k]).0 == raw@[k].0
                && legality_meaning(raw@[k].1@) == Ok::<bool, Seq<char>>(out@[k].1),
        decreases raw@.len() - i,
    {
        let (format, word) = &raw[i];
        match parse_legality(word.as_str()) {
            Ok(b) => {
                out.push((*format, b));
            },
            Err(e) => {
                proof {
                    assert(legality_meaning(raw@[i as int].1@) == Err::<bool, Seq<char>>(e@));
                }
                return Err(e);
            },
        }
        i = i + 1;
    }
    Ok(out)
}

} // verus!

verus! {

/// Identity and gameplay data common to every form of card data.
/// The converted mana cost is held as the bit pattern of its `f64` value
/// (`f64::to_bits`), which is how cards are grouped by cost; legalities are
/// pairs of format and whether the card may be played there.
#[derive(Debug, Clone)]
pub struct CoreCardFields {
    pub id: String,
    pub oracle_id: Option<String>,
    pub name: String,
    pub lang: String,
    pub released_at: Option<String>,
    pub uri: String,
    pub scryfall_uri: String,
    pub layout: CardLayout,
    pub mana_cost: Option<String>,
    pub cmc: Option<u64>,
    pub type_line: Option<String>,
    pub oracle_text: Option<String>,
    pub power: Option<String>,
    pub toughness: Option<String>,
    pub loyalty: Option<String>,
    pub defense: Option<String>,
    pub colors: Option<Vec<String>>,
    pub color_identity: Vec<String>,
    pub color_indicator: Option<Vec<String>>,
    pub keywords: Vec<String>,
    pub legalities: Vec<(FormatLegality, bool)>,
    pub reserved: bool,
    pub game_changer: Option<bool>,
    pub life_modifier: Option<String>,
    pub hand_modifier: Option<String>,
    pub set_id: String,
    pub set: String,
    pub set_name: String,
    pub set_type: String,
    pub set_uri: String,
    pub set_search_uri: String,
    pub set_icon_svg_uri: Option<String>,
    pub scryfall_set_uri: String,
    pub rulings_uri: String,
    pub prints_search_uri: String,
    pub all_parts: Option<Vec<RelatedCard>>,
    pub card_faces: Option<Vec<CardFace>>,
}

/// Printing details shared by full card objects. Maps of names to links
/// are held as pairs.
#[derive(Debug, Clone)]
pub struct PrintFields {
    pub multiverse_ids: Option<Vec<i64>>,
    pub mtgo_id: Option<i64>,
    pub mtgo_foil_id: Option<i64>,
    pub tcgplayer_id: Option<i64>,
    pub cardmarket_id: Option<i64>,
    pub highres_image: bool,
    pub image_status: String,
    pub image_updated_at: Option<String>,
    pub image_uris: Option<ImageUris>,
    pub collector_number: String,
    pub digital: bool,
    pub rarity: String,
    pub watermark: Option<String>,
    pub flavor_text: Option<String>,
    pub card_back_id: Option<String>,
    pub artist: Option<String>,
    pub artist_ids: Option<Vec<String>>,
    pub illustration_id: Option<String>,
    pub border_color: String,
    pub frame: String,
    pub frame_effects: Option<Vec<String>>,
    pub security_stamp: Option<String>,
    pub full_art: bool,
    pub textless: bool,
    pub booster: bool,
    pub story_spotlight: bool,
    pub edhrec_rank: Option<i64>,
    pub penny_rank: Option<i64>,
    pub games: Vec<String>,
    pub finishes: Vec<String>,
    pub foil: bool,
    pub nonfoil: bool,
    pub oversized: bool,
    pub promo: bool,
    pub reprint: bool,
    pub variation: bool,
    pub prices: Prices,
    pub related_uris: Vec<(String, String)>,
    pub purchase_uris: Option<Vec<(String, String)>>,
    pub preview: Option<PreviewInfo>,
}

/// A full Scryfall card (the default API objects).
#[derive(Debug, Clone)]
pub struct ScryfallCard {
    pub core: CoreCardFields,
    pub print: PrintFields,
}

/// A card of the Oracle Cards bulk file: one printing per Oracle identity.
#[derive(Debug, Clone)]
pub struct OracleScryfallCard {
    pub core: CoreCardFields,
    pub print: PrintFields,
}

/// Whether the type line `t` holds `word` as one of its white-space
/// separated words.
pub open spec fn type_has_word(t: Option<String>, word: Seq<char>) -> bool {
    match t {
        Some(line) => words(line@).contains(word),
        None => false,
    }
}

/// Whether one of the words of `s` reads `word`.
pub fn has_word(s: &str, word: &str) -> (r: bool)
    ensures
        r == words(s@).contains(word@),
{
    let ws = split_words(s);
    let mut i: usize = 0;
    while i < ws.len()
        invariant
            views(ws@) == words(s@),
            i <= ws.len(),
            forall|k: int| 0 <= k < i ==> words(s@)[k] != word@,
        decreases ws.len() - i,
    {
        if same_text(ws[i].as_str(), word) {
            proof {
                assert(words(s@)[i as int] == ws@[i as int]@);
            }
            return true;
        }
        proof {
            assert(words(s@)[i as int] == ws@[i as int]@);
        }
        i = i + 1;
    }
    false
}

impl OracleScryfallCard {
    /// Checks if the card's type line holds `word` as one of its words.
    pub fn has_type_word(&self, word: &str) -> (r: bool)
        ensures
            r == type_has_word(self.core.type_line, word@),
    {
        match &self.core.type_line {
            Some(line) => has_word(line.as_str(), word),
            None => false,
        }
    }

    /// Whether the card is an Omen.
    pub fn is_omen(&self) -> (r: bool)
        ensures
            r == type_has_word(self.core.type_line, "Omen"@),
    {
        self.has_type_word("Omen")
    }

    /// Whether the card is a Creature.
    pub fn is_creature(&self) -> (r: bool)
        ensures
            r == type_has_word(self.core.type_line, "Creature"@),
    {
        self.has_type_word("Creature")
    }

    /// Whether the card is a Planeswalker.
    pub fn is_planeswalker(&self) -> (r: bool)
        ensures
            r == type_has_word(self.core.type_line, "Planeswalker"@),
    {
        self.has_type_word("Planeswalker")
    }
}

} // verus!
