use vstd::prelude::*;

use crate::cards::{RelatedCard, ScryfallCard};
use crate::text::same_text;

verus! {

/// Every meld result that Scryfall knows, with the parts it melds from.
#[derive(Debug)]
pub struct OracleMelds {
    pub melds: Vec<OracleMeld>,
}

/// A meld result and the cards that meld into it.
#[derive(Debug)]
pub struct OracleMeld {
    /// The Scryfall id of the result.
    pub result_id: String,
    pub children: Vec<OracleMeldChild>,
}

/// One card that melds into a result.
#[derive(Debug)]
pub struct OracleMeldChild {
    /// The Scryfall id of the part.
    pub id: String,
    /// Whether the part is the first or the second of the meld, counted
    /// from 1; it decides which half of the back art it shows.
    pub position: u8,
}

/// The meld parts among the related cards `parts`, in order: those whose
/// component is `meld_part`.
pub open spec fn meld_parts(parts: Seq<RelatedCard>) -> Seq<RelatedCard>
    decreases parts.len(),
{
    if parts.len() == 0 {
        Seq::empty()
    } else {
        let rest = meld_parts(parts.drop_last());
        if parts.last().component@ == "meld_part"@ {
            rest.push(parts.last())
        } else {
            rest
        }
    }
}

/// The children are the meld parts of `parts`, numbered from 1 in order
/// (the number kept in a byte, as the position is).
pub open spec fn children_of(children: Seq<OracleMeldChild>, parts: Seq<RelatedCard>) -> bool {
    let mp = meld_parts(parts);
    &&& children.len() == mp.len()
    &&& forall|k: int|
        0 <= k < children.len() ==> (#[trigger] children[k]).id@ == mp[k].id@ && children[k].position as int
            == (k + 1) % 256
}

/// The related cards of a card, none when it has none.
pub open spec fn parts_of(card: ScryfallCard) -> Seq<RelatedCard> {
    match card.core.all_parts {
        Some(p) => p@,
        None => Seq::empty(),
    }
}

/// The children of one meld result.
fn meld_children(parts: &Option<Vec<RelatedCard>>) -> (children: Vec<OracleMeldChild>)
    ensures
        children_of(
            children@,
            match parts {
                Some(p) => p@,
                None => Seq::empty(),
            },
        ),
{
    let mut children: Vec<OracleMeldChild> = Vec::new();
    match parts {
        None => {},
        Some(p) => {
            let mut i: usize = 0;
            while i < p.len()
                invariant
                    i <= p.len(),
                    children_of(children@, p@.take(i as int)),
                decreases p.len() - i,
            {
                proof {
                    assert(p@.take(i + 1).drop_last() == p@.take(i as int));
                    assert(p@.take(i + 1).last() == p@[i as int]);
                }
                if same_text(p[i].component.as_str(), "meld_part") {
                    let ghost before = children@;
                    let n = children.len();
                    let r = n % 256;
                    let position: u8 = if r == 255 { 0 } else { (r + 1) as u8 };
                    assert(position as int == (n + 1) % 256);
                    children.push(OracleMeldChild { id: p[i].id.clone(), position });
                    proof {
                        let mp = meld_parts(p@.take(i + 1));
                        assert forall|k: int| 0 <= k < children@.len() implies (#[trigger] children@[k]).id@
                            == mp[k].id@ && children@[k].position as int == (k + 1) % 256 by {
                            if k < before.len() {
                                assert(children@[k] == before[k]);
                            }
                        }
                    }
                }
                i = i + 1;
            }
            proof {
                assert(p@.take(p.len() as int) == p@);
            }
        },
    }
    children
}

/// The melds of the meld results `results`: for each result, in order, its
/// id and its meld parts numbered from 1.
pub fn melds_from_results(results: &Vec<ScryfallCard>) -> (m: OracleMelds)
    ensures
        m.melds@.len() == results@.len(),
        forall|i: int|
            0 <= i < results@.len() ==> (#[trigger] m.melds@[i]).result_id@ == results@[i].core.id@
                && children_of(m.melds@[i].children@, parts_of(results@[i])),
{
    let mut melds: Vec<OracleMeld> = Vec::new();
    let mut i: usize = 0;
    while i < results.len()
        invariant
            i <= results.len(),
            melds@.len() == i,
            forall|k: int|
                0 <= k < i ==> (#[trigger] melds@[k]).result_id@ == results@[k].core.id@ && children_of(
                    melds@[k].children@,
                    parts_of(results@[k]),
                ),
        decreases results.len() - i,
    {
        let card = &results[i];
        let children = meld_children(&card.core.all_parts);
        melds.push(OracleMeld { result_id: card.core.id.clone(), children });
        i = i + 1;
    }
    OracleMelds { melds }
}

/// Parts numbered in order: for a result with at most 255 parts, the k-th
/// child (from 0) is at position k + 1.
pub proof fn law_meld_positions_count_from_one(children: Seq<OracleMeldChild>, parts: Seq<RelatedCard>)
    requires
        children_of(children, parts),
        children.len() <= 255,
    ensures
        forall|k: int| 0 <= k < children.len() ==> (#[trigger] children[k]).position == k + 1,
{
}

} // verus!
