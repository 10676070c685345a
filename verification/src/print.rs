use vstd::prelude::*;

use crate::cards::{type_has_word, CardFace, CardLayout, OracleScryfallCard};
use crate::printers::{card_type_of, CardType};

verus! {

/// The parts of a card face, each drawn by its own renderer.
#[derive(Debug, Clone, Copy, PartialEq, Eq, Structural)]
pub enum Element {
    CardArt,
    Name,
    ManaCost,
    TypeLine,
    OracleText,
    OracleAdventureText,
    Artist,
    SetIcon,
    SetCode,
    PowerToughness,
    Border,
}

/// Which face of a two-faced card a part is drawn from: the main face, the
/// adventure, or neither (the card as a whole).
#[derive(Debug, Clone, Copy, PartialEq, Eq, Structural)]
pub enum FaceChoice {
    Main,
    Adventure,
    Whole,
}

/// The parts of a face, in the order they are drawn: the art first and the
/// border last, so that the frame lies over everything.
pub open spec fn face_elements_spec() -> Seq<Element> {
    seq![
        Element::CardArt,
        Element::Name,
        Element::ManaCost,
        Element::TypeLine,
        Element::OracleText,
        Element::Artist,
        Element::SetIcon,
        Element::SetCode,
        Element::PowerToughness,
        Element::Border,
    ]
}

/// The parts of an adventure card, in order, each with the face it is
/// drawn from: the main face's name, cost and type line, both rules texts
/// together, and the rest from the card as a whole.
pub open spec fn adventure_elements_spec() -> Seq<(FaceChoice, Element)> {
    seq![
        (FaceChoice::Whole, Element::CardArt),
        (FaceChoice::Main, Element::Name),
        (FaceChoice::Main, Element::ManaCost),
        (FaceChoice::Main, Element::TypeLine),
        (FaceChoice::Main, Element::OracleAdventureText),
        (FaceChoice::Whole, Element::Artist),
        (FaceChoice::Whole, Element::SetIcon),
        (FaceChoice::Whole, Element::SetCode),
        (FaceChoice::Whole, Element::PowerToughness),
        (FaceChoice::Whole, Element::Border),
    ]
}

/// The parts of a face, in drawing order.
pub fn face_elements() -> (v: Vec<Element>)
    ensures
        v@ == face_elements_spec(),
{
    let v = vec![
        Element::CardArt,
        Element::Name,
        Element::ManaCost,
        Element::TypeLine,
        Element::OracleText,
        Element::Artist,
        Element::SetIcon,
        Element::SetCode,
        Element::PowerToughness,
        Element::Border,
    ];
    proof {
        assert(v@ =~= face_elements_spec());
    }
    v
}

/// The parts of an adventure card with their faces, in drawing order.
pub fn adventure_elements() -> (v: Vec<(FaceChoice, Element)>)
    ensures
        v@ == adventure_elements_spec(),
{
    let v = vec![
        (FaceChoice::Whole, Element::CardArt),
        (FaceChoice::Main, Element::Name),
        (FaceChoice::Main, Element::ManaCost),
        (FaceChoice::Main, Element::TypeLine),
        (FaceChoice::Main, Element::OracleAdventureText),
        (FaceChoice::Whole, Element::Artist),
        (FaceChoice::Whole, Element::SetIcon),
        (FaceChoice::Whole, Element::SetCode),
        (FaceChoice::Whole, Element::PowerToughness),
        (FaceChoice::Whole, Element::Border),
    ];
    proof {
        assert(v@ =~= adventure_elements_spec());
    }
    v
}

/// How a card goes on paper: one face; two faces side by side; or an
/// adventure (main face and adventure on one image).
#[derive(Debug, Clone, Copy, PartialEq, Eq, Structural)]
pub enum PrintShape {
    Single,
    SideBySide,
    Adventure,
}

/// The shape that each way of drawing a card uses: Omens and prepare cards
/// are drawn as adventures.
pub open spec fn shape_of_spec(t: CardType) -> PrintShape {
    match t {
        CardType::Regular(_) => PrintShape::Single,
        CardType::MDFC(_) => PrintShape::SideBySide,
        CardType::Adventure(_) => PrintShape::Adventure,
        CardType::Omen(_) => PrintShape::Adventure,
        CardType::Prepare(_) => PrintShape::Adventure,
    }
}

/// Whom a card of each kind is drawn by, and the card.
pub fn shape_of(t: &CardType) -> (r: (PrintShape, &OracleScryfallCard))
    ensures
        r.0 == shape_of_spec(*t),
        *r.1 == match *t {
            CardType::Regular(c) => c,
            CardType::MDFC(c) => c,
            CardType::Adventure(c) => c,
            CardType::Omen(c) => c,
            CardType::Prepare(c) => c,
        },
{
    match t {
        CardType::Regular(c) => (PrintShape::Single, c),
        CardType::MDFC(c) => (PrintShape::SideBySide, c),
        CardType::Adventure(c) => (PrintShape::Adventure, c),
        CardType::Omen(c) => (PrintShape::Adventure, c),
        CardType::Prepare(c) => (PrintShape::Adventure, c),
    }
}

/// Why a two-faced card cannot be drawn: it lists no faces, or not exactly
/// two.
pub open spec fn faces_problem(faces: Option<Vec<CardFace>>) -> Option<Seq<char>> {
    match faces {
        None => Some("No card faces"@),
        Some(fs) => if fs@.len() < 2 {
            Some("Expected at least 2 faces"@)
        } else if fs@.len() > 2 {
            Some("Expected only 2 faces"@)
        } else {
            None
        },
    }
}

/// The two faces of a card drawn with both, or why there are not two.
pub fn two_faces(card: &OracleScryfallCard) -> (r: Result<(&CardFace, &CardFace), String>)
    ensures
        match r {
            Ok((a, b)) => faces_problem(card.core.card_faces) is None
                && *a == card.core.card_faces->0@[0] && *b == card.core.card_faces->0@[1],
            Err(e) => faces_problem(card.core.card_faces) == Some(e@),
        },
{
    match &card.core.card_faces {
        None => Err(String::from_str("No card faces")),
        Some(fs) => {
            if fs.len() < 2 {
                Err(String::from_str("Expected at least 2 faces"))
            } else if fs.len() > 2 {
                Err(String::from_str("Expected only 2 faces"))
            } else {
                Ok((&fs[0], &fs[1]))
            }
        },
    }
}

/// The white gap between two faces printed side by side.
pub const FACE_GAP: u32 = 20;

/// The width of two faces `face_width` wide side by side, and where the
/// second starts.
pub fn side_by_side(face_width: u32) -> (r: (u32, u32))
    requires
        2 * face_width + 20 <= u32::MAX,
    ensures
        r.0 == 2 * face_width + 20,
        r.1 == face_width + 20,
{
    (face_width * 2 + FACE_GAP, face_width + FACE_GAP)
}

/// A card to be drawn as one image, known by its Scryfall id.
#[derive(Debug, Clone)]
pub struct CardImage {
    pub scryfall_id: String,
    card: OracleScryfallCard,
}

impl CardImage {
    /// The card held.
    pub closed spec fn card(&self) -> OracleScryfallCard {
        self.card
    }

    /// The id the image goes by.
    pub closed spec fn id(&self) -> Seq<char> {
        self.scryfall_id@
    }

    /// An image of `card`, under the card's id.
    pub fn new(card: OracleScryfallCard) -> (c: Self)
        ensures
            c.id() == card.core.id@,
            c.card() == card,
    {
        CardImage { scryfall_id: card.core.id.clone(), card }
    }

    /// The card held.
    pub fn card_ref(&self) -> (c: &OracleScryfallCard)
        ensures
            *c == self.card(),
    {
        &self.card
    }
}

/// Only modal double-faced, transform, split, adventure and prepare cards,
/// and omens, are drawn otherwise than as one face: a card of any other
/// layout whose type line lacks the word Omen is a regular card, printed as a
/// single face.
pub proof fn law_other_layouts_print_as_one_face(card: OracleScryfallCard)
    requires
        !type_has_word(card.core.type_line, "Omen"@),
        card.core.layout != CardLayout::ModalDFC,
        card.core.layout != CardLayout::Transform,
        card.core.layout != CardLayout::Split,
        card.core.layout != CardLayout::Adventure,
        card.core.layout != CardLayout::Prepare,
    ensures
        card_type_of(card) == CardType::Regular(card),
        shape_of_spec(card_type_of(card)) == PrintShape::Single,
{
}

/// Modal double-faced, transform and split cards that are not omens are
/// printed as two faces side by side.
pub proof fn law_two_faced_layouts_print_side_by_side(card: OracleScryfallCard)
    requires
        !type_has_word(card.core.type_line, "Omen"@),
        card.core.layout == CardLayout::ModalDFC || card.core.layout == CardLayout::Transform
            || card.core.layout == CardLayout::Split,
    ensures
        card_type_of(card) == CardType::MDFC(card),
        shape_of_spec(card_type_of(card)) == PrintShape::SideBySide,
{
}

} // verus!
