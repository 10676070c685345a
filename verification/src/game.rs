use vstd::prelude::*;

use crate::text::{same_text, views};

verus! {

/// Draws a fresh game id: a random (version 4) UUID from
/// `uuid::Uuid::new_v4`, in the hyphenated form its `Display` writes:
/// 36 characters, with hyphens after the 8th, 12th, 16th and 20th hex digit.
/// Which id comes out is left to chance.
#[verifier::external_body]
fn fresh_game_id() -> (id: String)
    ensures
        id@.len() == 36,
        id@[8] == '-' && id@[13] == '-' && id@[18] == '-' && id@[23] == '-',
{
    uuid::Uuid::new_v4().to_string()
}

/// The games that have been started, each known by its id.
#[derive(Debug)]
pub struct GameManager {
    games: Vec<String>,
}

impl GameManager {
    /// No id is kept twice.
    #[verifier::type_invariant]
    spec fn ids_unique(&self) -> bool {
        views(self.games@).no_duplicates()
    }

    /// The ids of the games started so far.
    pub closed spec fn ids(&self) -> Set<Seq<char>> {
        views(self.games@).to_set()
    }

    /// No game yet.
    pub fn new() -> (g: Self)
        ensures
            g.ids() == Set::<Seq<char>>::empty(),
    {
        let g = GameManager { games: Vec::new() };
        proof {
            assert(views(g.games@).to_set() =~= Set::<Seq<char>>::empty());
        }
        g
    }

    /// Whether a game with id `game_id` was started.
    pub fn game_exists(&self, game_id: &str) -> (b: bool)
        ensures
            b == self.ids().contains(game_id@),
    {
        let mut i: usize = 0;
        while i < self.games.len()
            invariant
                i <= self.games.len(),
                forall|k: int| 0 <= k < i ==> (#[trigger] self.games@[k])@ != game_id@,
            decreases self.games.len() - i,
        {
            if same_text(self.games[i].as_str(), game_id) {
                proof {
                    assert(views(self.games@)[i as int] == game_id@);
                }
                return true;
            }
            i = i + 1;
        }
        proof {
            assert forall|k: int| 0 <= k < views(self.games@).len() implies views(self.games@)[k] != game_id@ by {
                assert(views(self.games@)[k] == self.games@[k]@);
            }
        }
        false
    }

    /// Starts a game under a fresh random id and gives the id.
    pub fn new_game(&mut self) -> (id: String)
        ensures
            id@.len() == 36,
            final(self).ids() == old(self).ids().insert(id@),
    {
        proof {
            use_type_invariant(&*self);
        }
        let id = fresh_game_id();
        if !self.game_exists(id.as_str()) {
            let ghost before = views(self.games@);
            let mut games: Vec<String> = Vec::new();
            std::mem::swap(&mut games, &mut self.games);
            games.push(id.clone());
            proof {
                assert(views(games@) =~= before.push(id@));
                assert(!before.contains(id@));
            }
            self.games = games;
            proof {
                assert(views(self.games@) =~= before.push(id@));
                before.lemma_push_to_set_commute(id@);
            }
        } else {
            proof {
                assert(old(self).ids().insert(id@) =~= old(self).ids());
            }
        }
        id
    }

    /// The ids of the games started so far, in the order they started.
    pub fn list(&self) -> (ids: Vec<String>)
        ensures
            views(ids@).to_set() == self.ids(),
            views(ids@).no_duplicates(),
    {
        proof {
            use_type_invariant(self);
        }
        let ids = self.games.clone();
        proof {
            assert(views(ids@) =~= views(self.games@));
        }
        ids
    }
}

/// A game that was just started is known: asking for its id after
/// `new_game` answers yes.
pub proof fn law_new_game_exists(before: GameManager, after: GameManager, id: Seq<char>)
    requires
        after.ids() == before.ids().insert(id),
    ensures
        after.ids().contains(id),
        forall|other: Seq<char>| before.ids().contains(other) ==> after.ids().contains(other),
{
}

} // verus!
