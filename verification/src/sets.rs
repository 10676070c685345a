use vstd::prelude::*;

use crate::text::{opt_view, same_opt_text, same_text};

verus! {

/// The kinds of set that Scryfall distinguishes.
#[derive(Debug, Clone, Copy, PartialEq, Eq, Hash, Structural)]
pub enum ScryfallSetType {
    Core,
    Expansion,
    Masters,
    Eternal,
    Alchemy,
    Masterpiece,
    Arsenal,
    FromTheVault,
    Spellbook,
    PremiumDeck,
    DuelDeck,
    DraftInnovation,
    TreasureChest,
    Commander,
    Planechase,
    Archenemy,
    Vanguard,
    Funny,
    Starter,
    Box,
    Promo,
    Token,
    Memorabilia,
    Minigame,
}

/// A set of cards as the Scryfall API describes it.
#[derive(Debug, Clone)]
pub struct ScryfallSet {
    pub object: String,
    pub id: String,
    pub code: String,
    pub mtgo_code: Option<String>,
    pub arena_code: Option<String>,
    pub tcgplayer_id: Option<i64>,
    pub name: String,
    pub set_type: ScryfallSetType,
    pub released_at: Option<String>,
    pub block_code: Option<String>,
    pub parent_set_code: Option<String>,
    pub card_count: i64,
    pub printed_size: Option<i64>,
    pub digital: bool,
    pub foil_only: bool,
    pub nonfoil_only: bool,
    pub scryfall_uri: String,
    pub uri: String,
    pub icon_svg_uri: String,
    pub search_uri: String,
}

/// The list of sets that the Scryfall API answers with.
#[derive(Debug, Clone)]
pub struct ScryfallSetListResponse {
    pub object: String,
    pub has_more: bool,
    pub data: Vec<ScryfallSet>,
}

/// Two sets are the same when every field reads the same.
pub open spec fn same_set(a: ScryfallSet, b: ScryfallSet) -> bool {
    &&& a.object@ == b.object@
    &&& a.id@ == b.id@
    &&& a.code@ == b.code@
    &&& opt_view(a.mtgo_code) == opt_view(b.mtgo_code)
    &&& opt_view(a.arena_code) == opt_view(b.arena_code)
    &&& a.tcgplayer_id == b.tcgplayer_id
    &&& a.name@ == b.name@
    &&& a.set_type == b.set_type
    &&& opt_view(a.released_at) == opt_view(b.released_at)
    &&& opt_view(a.block_code) == opt_view(b.block_code)
    &&& opt_view(a.parent_set_code) == opt_view(b.parent_set_code)
    &&& a.card_count == b.card_count
    &&& a.printed_size == b.printed_size
    &&& a.digital == b.digital
    &&& a.foil_only == b.foil_only
    &&& a.nonfoil_only == b.nonfoil_only
    &&& a.scryfall_uri@ == b.scryfall_uri@
    &&& a.uri@ == b.uri@
    &&& a.icon_svg_uri@ == b.icon_svg_uri@
    &&& a.search_uri@ == b.search_uri@
}

impl ScryfallSet {
    /// Whether `self` and `other` are the same set, field by field.
    pub fn same_as(&self, other: &ScryfallSet) -> (r: bool)
        ensures
            r == same_set(*self, *other),
    {
        same_text(self.object.as_str(), other.object.as_str()) && same_text(self.id.as_str(), other.id.as_str())
            && same_text(self.code.as_str(), other.code.as_str()) && same_opt_text(&self.mtgo_code, &other.mtgo_code)
            && same_opt_text(&self.arena_code, &other.arena_code) && self.tcgplayer_id == other.tcgplayer_id
            && same_text(self.name.as_str(), other.name.as_str()) && self.set_type == other.set_type
            && same_opt_text(&self.released_at, &other.released_at) && same_opt_text(
            &self.block_code,
            &other.block_code,
        ) && same_opt_text(&self.parent_set_code, &other.parent_set_code) && self.card_count
            == other.card_count && self.printed_size == other.printed_size && self.digital == other.digital
            && self.foil_only == other.foil_only && self.nonfoil_only == other.nonfoil_only && same_text(
            self.scryfall_uri.as_str(),
            other.scryfall_uri.as_str(),
        ) && same_text(self.uri.as_str(), other.uri.as_str()) && same_text(
            self.icon_svg_uri.as_str(),
            other.icon_svg_uri.as_str(),
        ) && same_text(self.search_uri.as_str(), other.search_uri.as_str())
    }
}

/// No set occurs twice.
pub open spec fn no_duplicate_sets(s: Seq<ScryfallSet>) -> bool {
    forall|i: int, j: int| 0 <= i < s.len() && 0 <= j < s.len() && i != j ==> !same_set(#[trigger] s[i], #[trigger] s[j])
}

/// Whether a set that reads like `x` is one of `s`.
pub open spec fn holds_set(s: Seq<ScryfallSet>, x: ScryfallSet) -> bool {
    exists|i: int| 0 <= i < s.len() && same_set(#[trigger] s[i], x)
}

/// `s` after adding `x` unless a set that reads like it is held.
pub open spec fn with_set(s: Seq<ScryfallSet>, x: ScryfallSet) -> Seq<ScryfallSet> {
    if holds_set(s, x) {
        s
    } else {
        s.push(x)
    }
}

/// Adding a set twice is adding it once.
pub proof fn law_insert_idempotent(s: Seq<ScryfallSet>, x: ScryfallSet)
    ensures
        with_set(with_set(s, x), x) == with_set(s, x),
{
    if !holds_set(s, x) {
        let t = s.push(x);
        assert(same_set(t[s.len() as int], x));
        assert(holds_set(t, x));
    }
}

/// All the sets Scryfall knows, each once.
#[derive(Debug, Clone)]
pub struct ScryfallSets {
    sets: Vec<ScryfallSet>,
}

impl Default for ScryfallSets {
    /// No set at all.
    fn default() -> (s: Self)
        ensures
            s.view().len() == 0,
    {
        ScryfallSets { sets: Vec::new() }
    }
}

impl View for ScryfallSets {
    type V = Seq<ScryfallSet>;

    /// The sets held, in the order they came.
    closed spec fn view(&self) -> Seq<ScryfallSet> {
        self.sets@
    }
}

impl ScryfallSets {

    /// Adds `set` unless the same set is held already; tells whether it
    /// was added.
    pub fn insert(&mut self, set: ScryfallSet) -> (added: bool)
        ensures
            added == !holds_set(old(self).view(), set),
            final(self).view() == with_set(old(self).view(), set),
            no_duplicate_sets(old(self).view()) ==> no_duplicate_sets(final(self).view()),
    {
        let mut i: usize = 0;
        while i < self.sets.len()
            invariant
                i <= self.sets.len(),
                forall|k: int| 0 <= k < i ==> !same_set(#[trigger] self.sets@[k], set),
            decreases self.sets.len() - i,
        {
            if self.sets[i].same_as(&set) {
                return false;
            }
            i = i + 1;
        }
        let ghost before = self.sets@;
        self.sets.push(set);
        let ghost sets = self.sets@;
        proof {
            assert forall|a: int, b: int|
                no_duplicate_sets(before) && 0 <= a < sets.len() && 0 <= b < sets.len() && a != b implies !same_set(
                #[trigger] sets[a],
                #[trigger] sets[b],
            ) by {
                if a < before.len() && b < before.len() {
                    assert(sets[a] == before[a] && sets[b] == before[b]);
                } else if a < before.len() {
                    assert(sets[a] == before[a]);
                } else {
                    assert(sets[b] == before[b]);
                }
            }
        }
        true
    }

    /// The sets of `list`, each once: a set that occurs again is left out.
    pub fn from_vec(list: Vec<ScryfallSet>) -> (s: Self)
        ensures
            no_duplicate_sets(s.view()),
            forall|i: int| 0 <= i < list@.len() ==> holds_set(s.view(), #[trigger] list@[i]),
            forall|i: int| 0 <= i < s.view().len() ==> holds_set(list@, #[trigger] s.view()[i]),
    {
        let mut s = ScryfallSets::default();
        let ghost all = list@;
        for set in it: list
            invariant
                it.seq() == all,
                no_duplicate_sets(s.view()),
                forall|i: int| 0 <= i < it.index() ==> holds_set(s.view(), #[trigger] all[i]),
                forall|i: int| 0 <= i < s.view().len() ==> holds_set(all, #[trigger] s.view()[i]),
        {
            let ghost before = s.view();
            let ghost k = it.index();
            let ghost x = set;
            assert(all[k] == x);
            s.insert(set);
            proof {
                assert forall|i: int| 0 <= i < k + 1 implies holds_set(s.view(), #[trigger] all[i]) by {
                    if i < k {
                        let j = choose|j: int| 0 <= j < before.len() && same_set(#[trigger] before[j], all[i]);
                        assert(s.view()[j] == before[j]);
                    } else if holds_set(before, x) {
                        let j = choose|j: int| 0 <= j < before.len() && same_set(#[trigger] before[j], x);
                        assert(s.view()[j] == before[j]);
                    } else {
                        assert(same_set(s.view()[before.len() as int], x));
                    }
                }
                assert forall|i: int| 0 <= i < s.view().len() implies holds_set(all, #[trigger] s.view()[i]) by {
                    if i < before.len() {
                        assert(s.view()[i] == before[i]);
                    } else {
                        assert(same_set(all[k], s.view()[i]));
                    }
                }
            }
        }
        s
    }

    /// How many sets are held.
    pub fn len(&self) -> (n: usize)
        ensures
            n == self.view().len(),
    {
        self.sets.len()
    }

    /// Whether no set is held.
    pub fn is_empty(&self) -> (b: bool)
        ensures
            b == (self.view().len() == 0),
    {
        self.sets.len() == 0
    }

    /// The sets held, one after the other.
    pub fn iter(&self) -> (it: std::slice::Iter<'_, ScryfallSet>)
        ensures
            vstd::std_specs::iter::IteratorSpec::remaining(&it) == self.view().as_ref(),
    {
        proof {
            broadcast use vstd::std_specs::slice::axiom_spec_slice_iter;
        }
        self.sets.iter()
    }

    /// The first set held whose id reads `id`.
    pub fn get_set_from_id(&self, id: &str) -> (r: Option<&ScryfallSet>)
        ensures
            match r {
                Some(s) => first_set_with_id(self.view(), id@) == Some(*s),
                None => first_set_with_id(self.view(), id@) is None,
            },
    {
        let mut i: usize = 0;
        proof {
            assert(self.sets@.skip(0) =~= self.sets@);
        }
        while i < self.sets.len()
            invariant
                i <= self.sets.len(),
                first_set_with_id(self.sets@, id@) == first_set_with_id(self.sets@.skip(i as int), id@),
            decreases self.sets.len() - i,
        {
            proof {
                assert(self.sets@.skip(i as int)[0] == self.sets@[i as int]);
                assert(self.sets@.skip(i as int).drop_first() =~= self.sets@.skip(i + 1));
            }
            if same_text(self.sets[i].id.as_str(), id) {
                return Some(&self.sets[i]);
            }
            i = i + 1;
        }
        proof {
            assert(self.sets@.skip(i as int).len() == 0);
        }
        None
    }

    /// The icon link of the first set held whose id reads `id`.
    pub fn get_svg_uri_from_id(&self, id: &str) -> (r: Option<&String>)
        ensures
            match r {
                Some(u) => first_set_with_id(self.view(), id@) matches Some(x) && x.icon_svg_uri == *u,
                None => first_set_with_id(self.view(), id@) is None,
            },
    {
        match self.get_set_from_id(id) {
            Some(set) => Some(&set.icon_svg_uri),
            None => None,
        }
    }
}

/// The first set of `s` whose id reads `id`, if any.
pub open spec fn first_set_with_id(s: Seq<ScryfallSet>, id: Seq<char>) -> Option<ScryfallSet>
    decreases s.len(),
{
    if s.len() == 0 {
        None
    } else if s[0].id@ == id {
        Some(s[0])
    } else {
        first_set_with_id(s.drop_first(), id)
    }
}

/// A lookup by id finds the set of `s` with that id that comes first, and
/// finds none exactly when no set of `s` has that id.
pub proof fn law_lookup_finds_first_set(s: Seq<ScryfallSet>, id: Seq<char>)
    ensures
        match first_set_with_id(s, id) {
            Some(x) => exists|i: int|
                0 <= i < s.len() && s[i] == x && x.id@ == id && forall|k: int|
                    0 <= k < i ==> (#[trigger] s[k]).id@ != id,
            None => forall|i: int| 0 <= i < s.len() ==> (#[trigger] s[i]).id@ != id,
        },
    decreases s.len(),
{
    if s.len() > 0 {
        let rest = s.drop_first();
        law_lookup_finds_first_set(rest, id);
        if s[0].id@ != id {
            match first_set_with_id(rest, id) {
                Some(x) => {
                    let j = choose|j: int|
                        0 <= j < rest.len() && rest[j] == x && x.id@ == id && forall|k: int|
                            0 <= k < j ==> (#[trigger] rest[k]).id@ != id;
                    assert(s[j + 1] == x);
                    assert forall|k: int| 0 <= k < j + 1 implies (#[trigger] s[k]).id@ != id by {
                        if k > 0 {
                            assert(s[k] == rest[k - 1]);
                        }
                    }
                },
                None => {
                    assert forall|i: int| 0 <= i < s.len() implies (#[trigger] s[i]).id@ != id by {
                        if i > 0 {
                            assert(s[i] == rest[i - 1]);
                        }
                    }
                },
            }
        }
    }
}

/// Looking up a set's icon by id gives the icon of the set that looking up
/// the set by the same id gives, and nothing exactly when that finds none.
pub proof fn law_icon_lookup_agrees_with_set_lookup(
    sets: Seq<ScryfallSet>,
    id: Seq<char>,
    found: Option<ScryfallSet>,
    icon: Option<String>,
)
    requires
        match found {
            Some(s) => first_set_with_id(sets, id) == Some(s),
            None => first_set_with_id(sets, id) is None,
        },
        match icon {
            Some(u) => first_set_with_id(sets, id) matches Some(x) && x.icon_svg_uri == u,
            None => first_set_with_id(sets, id) is None,
        },
    ensures
        match found {
            Some(s) => icon == Some(s.icon_svg_uri),
            None => icon is None,
        },
{
}

} // verus!
