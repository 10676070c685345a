use vstd::prelude::*;

use crate::cards::ScryfallCard;

verus! {

/// One page of a list answer of the Scryfall API.
#[derive(Debug)]
pub struct ScryfallPageResponse<T> {
    pub object: String,
    pub total_cards: Option<u32>,
    pub has_more: bool,
    pub next_page: Option<String>,
    pub data: Vec<T>,
}

impl<T> ScryfallPageResponse<T> {
    /// The link of the page to fetch next: the next page when the answer
    /// says there are more, and none otherwise.
    pub fn next_page_link(&self) -> (r: Option<&String>)
        ensures
            r == (if self.has_more {
                match &self.next_page {
                    Some(l) => Some(l),
                    None => None,
                }
            } else {
                None
            }),
    {
        if self.has_more {
            match &self.next_page {
                Some(l) => Some(l),
                None => None,
            }
        } else {
            None
        }
    }
}

/// Every card of a search, gathered from all its pages.
#[derive(Debug, Clone)]
pub struct ScryfallCardList {
    pub total_cards: Option<u32>,
    pub data: Vec<ScryfallCard>,
}

/// The ids of `cards`, in order.
pub open spec fn ids_of(cards: Seq<ScryfallCard>) -> Seq<Seq<char>> {
    cards.map_values(|c: ScryfallCard| c.core.id@)
}

impl ScryfallCardList {
    /// The ids of the cards, in order, copied.
    pub fn card_ids(&self) -> (ids: Vec<String>)
        ensures
            crate::text::views(ids@) == ids_of(self.data@),
    {
        let mut ids: Vec<String> = Vec::new();
        let mut i: usize = 0;
        while i < self.data.len()
            invariant
                i <= self.data.len(),
                crate::text::views(ids@) == ids_of(self.data@.take(i as int)),
            decreases self.data.len() - i,
        {
            let ghost before = ids@;
            proof {
                assert(crate::text::views(before).len() == before.len());
                assert(ids_of(self.data@.take(i as int)).len() == i);
            }
            ids.push(self.data[i].core.id.clone());
            proof {
                assert forall|k: int| 0 <= k < i + 1 implies #[trigger] crate::text::views(ids@)[k] == ids_of(self.data@.take(i + 1))[k] by {
                    if k < i {
                        assert(ids@[k] == before[k]);
                        assert(crate::text::views(before)[k] == ids_of(self.data@.take(i as int))[k]);
                        assert(self.data@.take(i + 1)[k] == self.data@.take(i as int)[k]);
                    }
                }
                assert(crate::text::views(ids@) =~= ids_of(self.data@.take(i + 1)));
            }
            i = i + 1;
        }
        proof {
            assert(self.data@.take(self.data.len() as int) == self.data@);
        }
        ids
    }

    /// The ids of the cards, in order, moved out of the list.
    pub fn into_card_ids(self) -> (ids: Vec<String>)
        ensures
            crate::text::views(ids@) == ids_of(self.data@),
    {
        let ghost all = self.data@;
        let mut ids: Vec<String> = Vec::new();
        for card in it: self.data
            invariant
                it.seq() == all,
                crate::text::views(ids@) == ids_of(all.take(it.index())),
        {
            let ghost c = card;
            let ghost before = ids@;
            proof {
                assert(crate::text::views(before).len() == before.len());
                assert(ids_of(all.take(it.index())).len() == it.index());
            }
            ids.push(card.core.id);
            proof {
                assert forall|k: int| 0 <= k < it.index() + 1 implies #[trigger] crate::text::views(ids@)[k] == ids_of(all.take(it.index() + 1))[k] by {
                    if k < it.index() {
                        assert(ids@[k] == before[k]);
                        assert(crate::text::views(before)[k] == ids_of(all.take(it.index()))[k]);
                        assert(all.take(it.index() + 1)[k] == all.take(it.index())[k]);
                    }
                }
                assert(all.take(it.index() + 1) == all.take(it.index()).push(c));
                assert(crate::text::views(ids@) =~= ids_of(all.take(it.index() + 1)));
            }
        }
        proof {
            assert(all.take(all.len() as int) == all);
        }
        ids
    }
}

impl ScryfallCardList {
    /// The list begun from the first page of a search: the count of cards
    /// that page reports, and its cards.
    pub fn from_first_page(page: ScryfallPageResponse<ScryfallCard>) -> (l: Self)
        ensures
            l.total_cards == page.total_cards,
            l.data@ == page.data@,
    {
        ScryfallCardList { total_cards: page.total_cards, data: page.data }
    }

    /// Adds the cards of a further page after those gathered so far; the
    /// count stays the first page's.
    pub fn add_page(&mut self, page: ScryfallPageResponse<ScryfallCard>)
        ensures
            final(self).total_cards == old(self).total_cards,
            final(self).data@ == old(self).data@ + page.data@,
    {
        let mut rest = page.data;
        self.data.append(&mut rest);
    }
}

/// The ids of cards gathered page after page are the ids of each page,
/// in the same order.
pub proof fn law_ids_follow_the_pages(first: Seq<ScryfallCard>, rest: Seq<ScryfallCard>)
    ensures
        ids_of(first + rest) == ids_of(first) + ids_of(rest),
{
    assert(ids_of(first + rest) =~= ids_of(first) + ids_of(rest));
}

} // verus!
