use vstd::prelude::*;

use rand::seq::IteratorRandom;

use crate::cards::OracleScryfallCard;
use crate::text::{contains_str, occurs_in, same_text, views};

verus! {

/// A group of cards that a Momir player may leave out of the pool.
#[derive(Debug, Clone, Copy, PartialEq, Eq, Structural)]
pub enum OracleFilter {
    Unsets,
    Modern,
    Premodern,
    UnknownEvent,
    EverythingElse,
}

/// The groups of cards to leave out.
#[derive(Debug, Clone, PartialEq, Eq)]
pub struct OracleFilters {
    pub filters: Vec<OracleFilter>,
}

impl OracleFilters {
    /// No filter at all.
    pub fn new() -> (f: Self)
        ensures
            f.filters@ == Seq::<OracleFilter>::empty(),
    {
        Self { filters: Vec::new() }
    }

    /// The given filters, in order.
    pub fn from_vec(filters: Vec<OracleFilter>) -> (f: Self)
        ensures
            f.filters@ == filters@,
    {
        Self { filters }
    }
}

/// The display name of a filter.
pub open spec fn filter_name(f: OracleFilter) -> Seq<char> {
    match f {
        OracleFilter::Unsets => "Unsets"@,
        OracleFilter::Modern => "Modern"@,
        OracleFilter::Premodern => "Premodern"@,
        OracleFilter::UnknownEvent => "Unknown Event"@,
        OracleFilter::EverythingElse => "Everything Else"@,
    }
}

impl OracleFilter {
    /// The name the filter displays as.
    pub fn as_str(&self) -> (s: &'static str)
        ensures
            s@ == filter_name(*self),
    {
        match self {
            OracleFilter::Unsets => "Unsets",
            OracleFilter::Modern => "Modern",
            OracleFilter::Premodern => "Premodern",
            OracleFilter::UnknownEvent => "Unknown Event",
            OracleFilter::EverythingElse => "Everything Else",
        }
    }
}

/// The filters for the groups that a player did not tick, in the order
/// Unknown Event, Modern, Premodern, Unsets, Everything Else.
pub open spec fn unticked_filters(
    unknown_event: bool,
    modern: bool,
    premodern: bool,
    unsets: bool,
    everything_else: bool,
) -> Seq<OracleFilter> {
    let s0 = Seq::<OracleFilter>::empty();
    let s1 = if unknown_event { s0 } else { s0.push(OracleFilter::UnknownEvent) };
    let s2 = if modern { s1 } else { s1.push(OracleFilter::Modern) };
    let s3 = if premodern { s2 } else { s2.push(OracleFilter::Premodern) };
    let s4 = if unsets { s3 } else { s3.push(OracleFilter::Unsets) };
    if everything_else { s4 } else { s4.push(OracleFilter::EverythingElse) }
}

/// The filters that a card request asks for: one for each group that was
/// not ticked, or none at all when every group was ticked.
pub fn filters_from_checks(
    unknown_event: bool,
    modern: bool,
    premodern: bool,
    unsets: bool,
    everything_else: bool,
) -> (r: Option<OracleFilters>)
    ensures
        ({
            let s = unticked_filters(unknown_event, modern, premodern, unsets, everything_else);
            match r {
                Some(f) => s.len() > 0 && f.filters@ == s,
                None => s.len() == 0,
            }
        }),
{
    let mut filters: Vec<OracleFilter> = Vec::new();
    if !unknown_event {
        filters.push(OracleFilter::UnknownEvent);
    }
    if !modern {
        filters.push(OracleFilter::Modern);
    }
    if !premodern {
        filters.push(OracleFilter::Premodern);
    }
    if !unsets {
        filters.push(OracleFilter::Unsets);
    }
    if !everything_else {
        filters.push(OracleFilter::EverythingElse);
    }
    if filters.len() == 0 {
        None
    } else {
        Some(OracleFilters::from_vec(filters))
    }
}

/// Picks one position in `0..n` uniformly at random with
/// `rand::seq::IteratorRandom::choose` on the range `0..n` and `rand::rng()`.
/// Its documentation says that it returns an element of the range, and
/// `None` only when the range is empty; which element comes back is left to
/// chance.
#[verifier::external_body]
fn choose_position(n: usize) -> (r: Option<usize>)
    ensures
        r matches Some(i) ==> i < n,
        r is None <==> n == 0,
{
    (0..n).choose(&mut rand::rng())
}

} // verus!

verus! {

/// Whether a card's type line holds the text "Creature".
pub open spec fn is_creature_card(c: OracleScryfallCard) -> bool {
    match c.core.type_line {
        Some(t) => occurs_in(t@, "Creature"@),
        None => false,
    }
}

/// No two cards share an id.
pub open spec fn distinct_ids(cs: Seq<OracleScryfallCard>) -> bool {
    forall|i: int, j: int|
        0 <= i < cs.len() && 0 <= j < cs.len() && i != j ==> #[trigger] cs[i].core.id@
            != #[trigger] cs[j].core.id@
}

/// Whether a card id gets past `filters`: the Unsets filter leaves out the
/// ids in `unset`; the other filters leave out nothing yet.
pub open spec fn passes(filters: Option<&OracleFilters>, unset: Seq<Seq<char>>, id: Seq<char>) -> bool {
    match filters {
        None => true,
        Some(f) => !f.filters@.contains(OracleFilter::Unsets) || !unset.contains(id),
    }
}

/// The ids of `pairs` that are filed under cost `k` and pass `filters`,
/// in order.
pub open spec fn eligible_in(
    pairs: Seq<(u64, String)>,
    k: u64,
    filters: Option<&OracleFilters>,
    unset: Seq<Seq<char>>,
) -> Seq<Seq<char>>
    decreases pairs.len(),
{
    if pairs.len() == 0 {
        Seq::empty()
    } else {
        let rest = eligible_in(pairs.drop_last(), k, filters, unset);
        let p = pairs.last();
        if p.0 == k && passes(filters, unset, p.1@) {
            rest.push(p.1@)
        } else {
            rest
        }
    }
}

/// One of the first `n` cards of `cs` is a creature with the id and the cost
/// of the index entry `p`.
pub open spec fn backed(cs: Seq<OracleScryfallCard>, n: int, p: (u64, String)) -> bool {
    exists|t: int|
        0 <= t < n && t < cs.len() && (#[trigger] cs[t]).core.id@ == p.1@ && cs[t].core.cmc == Some(p.0)
            && is_creature_card(cs[t])
}

/// Some entry of `index` files card `c` under its cost.
pub open spec fn filed(index: Seq<(u64, String)>, c: OracleScryfallCard) -> bool {
    exists|i: int|
        0 <= i < index.len() && Some((#[trigger] index[i]).0) == c.core.cmc && index[i].1@ == c.core.id@
}

/// The Oracle card pool, with its creatures filed by converted mana cost.
#[derive(Debug, Clone)]
pub struct OracleCards {
    pub cards: Option<Vec<OracleScryfallCard>>,
    creatures_by_cmc: Vec<(u64, String)>,
    unset_creature_ids: Vec<String>,
}

impl Default for OracleCards {
    fn default() -> (o: Self)
        ensures
            o.pool() is None,
            o.cost_index().len() == 0,
            o.unset_ids().len() == 0,
    {
        OracleCards { cards: None, creatures_by_cmc: Vec::new(), unset_creature_ids: Vec::new() }
    }
}

impl OracleCards {
    /// The cards of the pool, when it is loaded.
    pub closed spec fn pool(self) -> Option<Vec<OracleScryfallCard>> {
        self.cards
    }

    /// The creatures filed by cost: pairs of the bits of a converted mana
    /// cost and a card id.
    pub closed spec fn cost_index(self) -> Seq<(u64, String)> {
        self.creatures_by_cmc@
    }

    /// The ids of the creatures that belong to an un-set.
    pub closed spec fn unset_ids(self) -> Seq<Seq<char>> {
        views(self.unset_creature_ids@)
    }

    /// The ids that a draw at cost `k` with `filters` chooses from.
    pub open spec fn eligible(self, k: u64, filters: Option<&OracleFilters>) -> Seq<Seq<char>> {
        eligible_in(self.cost_index(), k, filters, self.unset_ids())
    }

    /// The index agrees with the cards: every card has its own id, and each
    /// filed id is that of a creature card of the cost it is filed under.
    pub open spec fn consistent(self) -> bool {
        &&& self.pool() is Some
        &&& distinct_ids(self.pool()->0@)
        &&& forall|i: int|
            0 <= i < self.cost_index().len() ==> backed(
                self.pool()->0@,
                self.pool()->0@.len() as int,
                #[trigger] self.cost_index()[i],
            )
    }

    /// Files the creatures of `cards` by cost: the computing part of loading
    /// the Oracle card pool, once the cards are read and the ids of the
    /// un-set creatures are fetched.
    pub fn from_cards(cards: Vec<OracleScryfallCard>, unset_creature_ids: Vec<String>) -> (o: Self)
        requires
            distinct_ids(cards@),
        ensures
            o.pool() == Some(cards),
            o.unset_ids() == views(unset_creature_ids@),
            o.consistent(),
            forall|j: int|
                0 <= j < cards@.len() && is_creature_card(#[trigger] cards@[j])
                    && cards@[j].core.cmc is Some ==> filed(o.cost_index(), cards@[j]),
    {
        let mut index: Vec<(u64, String)> = Vec::new();
        let mut j: usize = 0;
        while j < cards.len()
            invariant
                j <= cards.len(),
                distinct_ids(cards@),
                forall|i: int| 0 <= i < index@.len() ==> backed(cards@, j as int, #[trigger] index@[i]),
                forall|t: int|
                    0 <= t < j && is_creature_card(#[trigger] cards@[t]) && cards@[t].core.cmc is Some
                        ==> filed(index@, cards@[t]),
            decreases cards.len() - j,
        {
            let card = &cards[j];
            let creature = match &card.core.type_line {
                Some(t) => contains_str(t.as_str(), "Creature"),
                None => false,
            };
            assert(creature == is_creature_card(cards@[j as int]));
            let ghost old_index = index@;
            if creature && card.core.cmc.is_some() {
                let k = card.core.cmc.unwrap();
                index.push((k, card.core.id.clone()));
                proof {
                    assert(index@[old_index.len() as int].1@ == cards@[j as int].core.id@);
                    assert(filed(index@, cards@[j as int]));
                    assert(backed(cards@, j + 1, index@[old_index.len() as int]));
                }
            }
            proof {
                assert forall|i: int| 0 <= i < index@.len() implies backed(cards@, j + 1, #[trigger] index@[i]) by {
                    if i < old_index.len() {
                        assert(index@[i] == old_index[i]);
                        assert(backed(cards@, j as int, old_index[i]));
                    }
                }
                assert forall|t: int|
                    0 <= t < j + 1 && is_creature_card(#[trigger] cards@[t]) && cards@[t].core.cmc is Some
                        implies filed(index@, cards@[t]) by {
                    if t < j {
                        assert(filed(old_index, cards@[t]));
                        let i = choose|i: int|
                            0 <= i < old_index.len() && Some((#[trigger] old_index[i]).0) == cards@[t].core.cmc
                                && old_index[i].1@ == cards@[t].core.id@;
                        assert(index@[i] == old_index[i]);
                    }
                }
            }
            j = j + 1;
        }
        let o = OracleCards { cards: Some(cards), creatures_by_cmc: index, unset_creature_ids };
        proof {
            assert(o.pool()->0@ == cards@);
            assert(o.cost_index() == index@);
        }
        o
    }
}

} // verus!

verus! {

/// Whether `id` is one of `ids`.
fn holds_id(ids: &Vec<String>, id: &String) -> (r: bool)
    ensures
        r == views(ids@).contains(id@),
{
    let mut i: usize = 0;
    while i < ids.len()
        invariant
            i <= ids.len(),
            forall|k: int| 0 <= k < i ==> ids@[k]@ != id@,
        decreases ids.len() - i,
    {
        if same_text(ids[i].as_str(), id.as_str()) {
            proof {
                assert(views(ids@)[i as int] == id@);
            }
            return true;
        }
        i = i + 1;
    }
    proof {
        assert forall|k: int| 0 <= k < views(ids@).len() implies views(ids@)[k] != id@ by {
            assert(views(ids@)[k] == ids@[k]@);
        }
    }
    false
}

/// Whether `id` gets past `filters`.
fn passes_filters(filters: Option<&OracleFilters>, unset: &Vec<String>, id: &String) -> (r: bool)
    ensures
        r == passes(filters, views(unset@), id@),
{
    match filters {
        None => true,
        Some(f) => {
            let mut i: usize = 0;
            let mut has_unsets = false;
            while i < f.filters.len()
                invariant
                    i <= f.filters.len(),
                    has_unsets == f.filters@.take(i as int).contains(OracleFilter::Unsets),
                decreases f.filters.len() - i,
            {
                proof {
                    assert(f.filters@.take(i + 1) == f.filters@.take(i as int).push(f.filters@[i as int]));
                }
                if f.filters[i] == OracleFilter::Unsets {
                    has_unsets = true;
                    proof {
                        assert(f.filters@.take(i + 1)[i as int] == OracleFilter::Unsets);
                    }
                }
                i = i + 1;
            }
            proof {
                assert(f.filters@.take(f.filters.len() as int) == f.filters@);
            }
            !has_unsets || !holds_id(unset, id)
        },
    }
}

/// An id in the eligible list is one filed under the asked cost.
proof fn lemma_eligible_filed(
    pairs: Seq<(u64, String)>,
    k: u64,
    filters: Option<&OracleFilters>,
    unset: Seq<Seq<char>>,
    id: Seq<char>,
)
    requires
        eligible_in(pairs, k, filters, unset).contains(id),
    ensures
        exists|i: int| 0 <= i < pairs.len() && (#[trigger] pairs[i]).0 == k && pairs[i].1@ == id,
        passes(filters, unset, id),
    decreases pairs.len(),
{
    let rest = eligible_in(pairs.drop_last(), k, filters, unset);
    let p = pairs.last();
    if rest.contains(id) {
        lemma_eligible_filed(pairs.drop_last(), k, filters, unset, id);
        let i = choose|i: int| 0 <= i < pairs.drop_last().len() && (#[trigger] pairs.drop_last()[i]).0 == k
            && pairs.drop_last()[i].1@ == id;
        assert(pairs[i] == pairs.drop_last()[i]);
    } else {
        assert(pairs[pairs.len() - 1] == p);
    }
}

/// A filed id of the asked cost that gets past the filters is offered.
proof fn lemma_filed_eligible(
    pairs: Seq<(u64, String)>,
    k: u64,
    filters: Option<&OracleFilters>,
    unset: Seq<Seq<char>>,
    i: int,
)
    requires
        0 <= i < pairs.len(),
        pairs[i].0 == k,
        passes(filters, unset, pairs[i].1@),
    ensures
        eligible_in(pairs, k, filters, unset).contains(pairs[i].1@),
    decreases pairs.len(),
{
    let rest = eligible_in(pairs.drop_last(), k, filters, unset);
    if i < pairs.len() - 1 {
        assert(pairs.drop_last()[i] == pairs[i]);
        lemma_filed_eligible(pairs.drop_last(), k, filters, unset, i);
        let j = choose|j: int| 0 <= j < rest.len() && rest[j] == pairs[i].1@;
        let all = eligible_in(pairs, k, filters, unset);
        if pairs.last().0 == k && passes(filters, unset, pairs.last().1@) {
            assert(all[j] == rest[j]);
        }
    } else {
        let all = eligible_in(pairs, k, filters, unset);
        assert(all[all.len() - 1] == pairs[i].1@);
    }
}

/// Momir draws from exactly the right cards: in a pool filed from its cards
/// (as `from_cards` files it), the ids offered at a cost under some filters
/// are those of the pool's creature cards of that cost that get past the
/// filters.
pub proof fn law_draws_are_the_matching_creatures(
    o: OracleCards,
    cards: Seq<OracleScryfallCard>,
    k: u64,
    filters: Option<&OracleFilters>,
    id: Seq<char>,
)
    requires
        o.consistent(),
        o.pool() matches Some(p) && p@ == cards,
        forall|j: int|
            0 <= j < cards.len() && is_creature_card(#[trigger] cards[j]) && cards[j].core.cmc is Some
                ==> filed(o.cost_index(), cards[j]),
    ensures
        o.eligible(k, filters).contains(id) <==> exists|j: int|
            0 <= j < cards.len() && (#[trigger] cards[j]).core.id@ == id && is_creature_card(cards[j])
                && cards[j].core.cmc == Some(k) && passes(filters, o.unset_ids(), id),
{
    let pairs = o.cost_index();
    if o.eligible(k, filters).contains(id) {
        lemma_eligible_filed(pairs, k, filters, o.unset_ids(), id);
        let i = choose|i: int| 0 <= i < pairs.len() && (#[trigger] pairs[i]).0 == k && pairs[i].1@ == id;
        assert(backed(cards, cards.len() as int, pairs[i]));
        let t = choose|t: int|
            0 <= t < cards.len() as int && t < cards.len() && (#[trigger] cards[t]).core.id@ == pairs[i].1@
                && cards[t].core.cmc == Some(pairs[i].0) && is_creature_card(cards[t]);
        assert(cards[t].core.id@ == id);
    }
    if exists|j: int|
        0 <= j < cards.len() && (#[trigger] cards[j]).core.id@ == id && is_creature_card(cards[j])
            && cards[j].core.cmc == Some(k) && passes(filters, o.unset_ids(), id) {
        let j = choose|j: int|
            0 <= j < cards.len() && (#[trigger] cards[j]).core.id@ == id && is_creature_card(cards[j])
                && cards[j].core.cmc == Some(k) && passes(filters, o.unset_ids(), id);
        assert(filed(pairs, cards[j]));
        let i = choose|i: int|
            0 <= i < pairs.len() && Some((#[trigger] pairs[i]).0) == cards[j].core.cmc && pairs[i].1@ == cards[j].core.id@;
        lemma_filed_eligible(pairs, k, filters, o.unset_ids(), i);
    }
}

/// With the Unsets filter on, Momir never offers a creature of an un-set.
pub proof fn law_unsets_filter_leaves_out_unset_creatures(o: OracleCards, k: u64, filters: &OracleFilters, id: Seq<char>)
    requires
        filters.filters@.contains(OracleFilter::Unsets),
        o.unset_ids().contains(id),
    ensures
        !o.eligible(k, Some(filters)).contains(id),
{
    if o.eligible(k, Some(filters)).contains(id) {
        lemma_eligible_filed(o.cost_index(), k, Some(filters), o.unset_ids(), id);
    }
}

/// Only the Unsets filter leaves anything out, and only the creatures of
/// un-sets: with no filters, or filters without Unsets, or an id that is not
/// an un-set creature's, every id gets through; with Unsets, an un-set id
/// does not.
pub proof fn law_only_unsets_leave_cards_out(f: &OracleFilters, unset: Seq<Seq<char>>, id: Seq<char>)
    ensures
        passes(None, unset, id),
        !f.filters@.contains(OracleFilter::Unsets) ==> passes(Some(f), unset, id),
        !unset.contains(id) ==> passes(Some(f), unset, id),
        f.filters@.contains(OracleFilter::Unsets) && unset.contains(id) ==> !passes(Some(f), unset, id),
{
}

/// Filters without Unsets offer the same ids at each cost as no filters.
proof fn lemma_eligible_without_unsets(
    pairs: Seq<(u64, String)>,
    k: u64,
    f: &OracleFilters,
    unset: Seq<Seq<char>>,
)
    requires
        !f.filters@.contains(OracleFilter::Unsets),
    ensures
        eligible_in(pairs, k, Some(f), unset) == eligible_in(pairs, k, None, unset),
    decreases pairs.len(),
{
    if pairs.len() > 0 {
        lemma_eligible_without_unsets(pairs.drop_last(), k, f, unset);
    }
}

/// Whatever other filters a request holds, without the Unsets filter Momir
/// draws from exactly the creatures it draws from with no filter at all.
pub proof fn law_filters_without_unsets_keep_every_creature(o: OracleCards, k: u64, f: &OracleFilters)
    requires
        !f.filters@.contains(OracleFilter::Unsets),
    ensures
        o.eligible(k, Some(f)) == o.eligible(k, None),
{
    lemma_eligible_without_unsets(o.cost_index(), k, f, o.unset_ids());
}

/// Each group's filter is asked for exactly when the group's own box is
/// unticked, and no filter at all exactly when every box is ticked.
pub proof fn law_each_unticked_box_gives_its_own_filter(
    unknown_event: bool,
    modern: bool,
    premodern: bool,
    unsets: bool,
    everything_else: bool,
)
    ensures
        ({
            let s = unticked_filters(unknown_event, modern, premodern, unsets, everything_else);
            &&& s.contains(OracleFilter::UnknownEvent) <==> !unknown_event
            &&& s.contains(OracleFilter::Modern) <==> !modern
            &&& s.contains(OracleFilter::Premodern) <==> !premodern
            &&& s.contains(OracleFilter::Unsets) <==> !unsets
            &&& s.contains(OracleFilter::EverythingElse) <==> !everything_else
            &&& s.len() == 0 <==> (unknown_event && modern && premodern && unsets && everything_else)
        }),
{
    broadcast use vstd::seq_lib::group_seq_properties;

}

/// A card is a creature of the pool exactly when its type line holds the
/// text "Creature", whatever words come before or after it.
pub proof fn law_creatures_are_cards_whose_type_line_says_creature(
    c: OracleScryfallCard,
    before: Seq<char>,
    after: Seq<char>,
)
    ensures
        c.core.type_line matches Some(t) && t@ == before + "Creature"@ + after ==> is_creature_card(c),
        is_creature_card(c) ==> (c.core.type_line matches Some(t) && exists|a: Seq<char>, b: Seq<char>|
            #![trigger a + "Creature"@ + b]
            t@ == a + "Creature"@ + b),
        c.core.type_line is None ==> !is_creature_card(c),
{
    let n = "Creature"@;
    if c.core.type_line matches Some(t) && t@ == before + n + after {
        let t = c.core.type_line->0;
        assert(t@.subrange(before.len() as int, (before.len() + n.len()) as int) =~= n);
    }
    if is_creature_card(c) {
        let t = c.core.type_line->0;
        let i = choose|i: int| 0 <= i && i + n.len() <= t@.len() && #[trigger] t@.subrange(i, i + n.len()) == n;
        let a = t@.take(i);
        let b = t@.skip(i + n.len());
        assert(t@ =~= a + n + b);
    }
}

/// Reading a card set keeps every card whose type line holds "Creature",
/// whatever else the type line says, and drops every card whose type line
/// does not.
pub proof fn law_collect_keeps_exactly_the_creatures(cs: Seq<OracleScryfallCard>, c: OracleScryfallCard)
    ensures
        (c.core.type_line matches Some(t) && occurs_in(t@, "Creature"@)) ==> creature_map(cs.push(c)).contains(c),
        !(c.core.type_line matches Some(t) && occurs_in(t@, "Creature"@)) ==> creature_map(cs.push(c))
            == creature_map(cs),
{
    let all = cs.push(c);
    assert(all.drop_last() =~= cs);
    assert(all.last() == c);
    let m = creature_map(cs);
    if is_creature_card(c) {
        if exists|i: int| 0 <= i < m.len() && (#[trigger] m[i]).core.id@ == c.core.id@ {
            let i = choose|i: int| 0 <= i < m.len() && (#[trigger] m[i]).core.id@ == c.core.id@;
            assert(m.update(i, c)[i] == c);
        } else {
            assert(m.push(c)[m.len() as int] == c);
        }
    }
}

impl OracleCards {
    /// The first card of the pool named `name`.
    pub fn named(&self, name: &str) -> (r: Option<&OracleScryfallCard>)
        ensures
            match r {
                Some(c) => self.pool() matches Some(cs) && cs@.contains(*c) && c.core.name@ == name@,
                None => self.pool() matches Some(cs) ==> forall|i: int|
                    0 <= i < cs@.len() ==> (#[trigger] cs@[i]).core.name@ != name@,
            },
    {
        let cards = self.cards.as_ref()?;
        let mut i: usize = 0;
        while i < cards.len()
            invariant
                self.cards == Some(*cards),
                i <= cards.len(),
                forall|k: int| 0 <= k < i ==> (#[trigger] cards@[k]).core.name@ != name@,
            decreases cards.len() - i,
        {
            if same_text(cards[i].core.name.as_str(), name) {
                return Some(&cards[i]);
            }
            i = i + 1;
        }
        None
    }

    /// A creature card of the pool chosen at random among those filed
    /// under the converted mana cost whose `f64` bit pattern is `cmc` that
    /// get past `filters`.
    pub fn random_creature_by_cmc(&self, cmc: u64, filters: Option<&OracleFilters>) -> (r: Option<
        &OracleScryfallCard,
    >)
        ensures
            r matches Some(c) ==> self.pool() matches Some(cs) && cs@.contains(*c)
                && self.eligible(cmc, filters).contains(c.core.id@),
            self.eligible(cmc, filters).len() == 0 ==> r is None,
            self.consistent() ==> (r is Some <==> self.eligible(cmc, filters).len() > 0),
            self.consistent() ==> (r matches Some(c) ==> c.core.cmc == Some(cmc)
                && is_creature_card(*c)),
    {
        let ghost elig = self.eligible(cmc, filters);
        let mut positions: Vec<usize> = Vec::new();
        let mut k: usize = 0;
        while k < self.creatures_by_cmc.len()
            invariant
                k <= self.creatures_by_cmc.len(),
                positions@.len() == eligible_in(self.cost_index().take(k as int), cmc, filters, self.unset_ids()).len(),
                forall|t: int| 0 <= t < positions@.len() ==> #[trigger] positions@[t] < k && self.cost_index()[positions@[t] as int].1@
                    == eligible_in(self.cost_index().take(k as int), cmc, filters, self.unset_ids())[t],
            decreases self.creatures_by_cmc.len() - k,
        {
            proof {
                assert(self.cost_index().take(k + 1).drop_last() == self.cost_index().take(k as int));
            }
            let entry = &self.creatures_by_cmc[k];
            if entry.0 == cmc && passes_filters(filters, &self.unset_creature_ids, &entry.1) {
                positions.push(k);
            }
            k = k + 1;
        }
        proof {
            assert(self.cost_index().take(k as int) == self.cost_index());
        }
        let chosen = choose_position(positions.len())?;
        let id = &self.creatures_by_cmc[positions[chosen]].1;
        proof {
            assert(elig[chosen as int] == id@);
            assert(elig.contains(id@));
        }
        let cards = self.cards.as_ref()?;
        let mut i: usize = 0;
        while i < cards.len()
            invariant
                self.cards == Some(*cards),
                i <= cards.len(),
                elig.contains(id@),
                elig == self.eligible(cmc, filters),
                forall|t: int| 0 <= t < i ==> (#[trigger] cards@[t]).core.id@ != id@,
            decreases cards.len() - i,
        {
            if same_text(cards[i].core.id.as_str(), id.as_str()) {
                proof {
                    if self.consistent() {
                        lemma_eligible_filed(self.cost_index(), cmc, filters, self.unset_ids(), id@);
                        let e = choose|e: int| 0 <= e < self.cost_index().len() && (#[trigger] self.cost_index()[e]).0 == cmc
                            && self.cost_index()[e].1@ == id@;
                        assert(backed(cards@, cards@.len() as int, self.cost_index()[e]));
                        let t = choose|t: int| 0 <= t < cards@.len() && (#[trigger] cards@[t]).core.id@ == self.cost_index()[e].1@
                            && cards@[t].core.cmc == Some(self.cost_index()[e].0) && is_creature_card(cards@[t]);
                        assert(t == i);
                    }
                }
                return Some(&cards[i]);
            }
            i = i + 1;
        }
        proof {
            if self.consistent() {
                lemma_eligible_filed(self.cost_index(), cmc, filters, self.unset_ids(), id@);
                let e = choose|e: int| 0 <= e < self.cost_index().len() && (#[trigger] self.cost_index()[e]).0 == cmc
                    && self.cost_index()[e].1@ == id@;
                assert(backed(cards@, cards@.len() as int, self.cost_index()[e]));
            }
        }
        None
    }
}

} // verus!

verus! {

/// `m` with card `c` filed under its id: it takes the place of the card
/// that has that id, or comes last when none has.
pub open spec fn keyed_insert(m: Seq<OracleScryfallCard>, c: OracleScryfallCard) -> Seq<OracleScryfallCard> {
    if exists|i: int| 0 <= i < m.len() && (#[trigger] m[i]).core.id@ == c.core.id@ {
        let i = choose|i: int| 0 <= i < m.len() && (#[trigger] m[i]).core.id@ == c.core.id@;
        m.update(i, c)
    } else {
        m.push(c)
    }
}

/// The creature cards of `cs` filed by id, a later card of an id taking
/// the place of an earlier one.
pub open spec fn creature_map(cs: Seq<OracleScryfallCard>) -> Seq<OracleScryfallCard>
    decreases cs.len(),
{
    if cs.len() == 0 {
        Seq::empty()
    } else {
        let m = creature_map(cs.drop_last());
        if is_creature_card(cs.last()) {
            keyed_insert(m, cs.last())
        } else {
            m
        }
    }
}

/// Keeps the creature cards of a parsed card set, filed by id: what
/// reading a card set keeps of the cards it parses.
pub fn collect_creatures(cards: Vec<OracleScryfallCard>) -> (m: Vec<OracleScryfallCard>)
    ensures
        m@ == creature_map(cards@),
        distinct_ids(m@),
{
    let ghost all = cards@;
    let mut m: Vec<OracleScryfallCard> = Vec::new();
    for c in it: cards
        invariant
            it.seq() == all,
            m@ == creature_map(all.take(it.index())),
            distinct_ids(m@),
    {
        proof {
            assert(all.take(it.index() + 1).drop_last() == all.take(it.index()));
            assert(all.take(it.index() + 1).last() == c);
        }
        let creature = match &c.core.type_line {
            Some(t) => contains_str(t.as_str(), "Creature"),
            None => false,
        };
        if creature {
            let mut k: usize = 0;
            let mut found = false;
            while k < m.len()
                invariant_except_break
                    k <= m.len(),
                    !found,
                    forall|t: int| 0 <= t < k ==> (#[trigger] m@[t]).core.id@ != c.core.id@,
                ensures
                    found ==> k < m.len() && m@[k as int].core.id@ == c.core.id@,
                    !found ==> k == m.len() && forall|t: int| 0 <= t < m.len() ==> (#[trigger] m@[t]).core.id@ != c.core.id@,
                decreases m.len() - k,
            {
                if same_text(m[k].core.id.as_str(), c.core.id.as_str()) {
                    found = true;
                    break;
                }
                k = k + 1;
            }
            let ghost before = m@;
            if found {
                proof {
                    let i = choose|i: int| 0 <= i < before.len() && (#[trigger] before[i]).core.id@ == c.core.id@;
                    assert(i == k);
                }
                m.set(k, c);
                proof {
                    assert forall|a: int, b: int|
                        0 <= a < m@.len() && 0 <= b < m@.len() && a != b implies #[trigger] m@[a].core.id@
                            != #[trigger] m@[b].core.id@ by {
                        assert(before[a].core.id@ == m@[a].core.id@);
                        assert(before[b].core.id@ == m@[b].core.id@);
                    }
                }
            } else {
                m.push(c);
                proof {
                    assert forall|a: int, b: int|
                        0 <= a < m@.len() && 0 <= b < m@.len() && a != b implies #[trigger] m@[a].core.id@
                            != #[trigger] m@[b].core.id@ by {
                        if a < before.len() && b < before.len() {
                            assert(m@[a] == before[a]);
                            assert(m@[b] == before[b]);
                        } else if a < before.len() {
                            assert(m@[a] == before[a]);
                        } else {
                            assert(m@[b] == before[b]);
                        }
                    }
                }
            }
        }
    }
    proof {
        assert(all.take(all.len() as int) == all);
    }
    m
}

} // verus!
