//! The states of the games that are running, by game identifier.

use vstd::prelude::*;
use crate::gamestate::{GameState, GameStateView};
use crate::keyed::Keyed;
use crate::keys::{first_unused, without};
use crate::types::GameId;

verus! {

/// The running games. A game is stored from the moment its players are
/// paired until its rules report that it is over.
pub struct GameStateStore {
    games: Keyed<GameState>,
}

impl View for GameStateStore {
    type V = Map<Seq<char>, GameStateView>;

    closed spec fn view(&self) -> Map<Seq<char>, GameStateView> {
        self.games@
    }
}

impl GameStateStore {
    /// What holds of every store: no identifier is stored twice, and every
    /// stored game is well formed.
    #[verifier::type_invariant]
    pub closed spec fn inv(&self) -> bool {
        &&& self.games.wf()
        &&& forall|id: Seq<char>| #[trigger]
            self.games@.contains_key(id) ==> self.games@[id].wf()
    }

    /// The identifiers of the stored games, oldest first.
    pub closed spec fn ids(&self) -> Seq<Seq<char>> {
        self.games.keys()
    }

    /// The identifiers are those of the stored games, each once, and every
    /// stored game has its two players and a state for each.
    pub proof fn lemma_inv(&self)
        requires
            self.inv(),
        ensures
            self.ids().no_duplicates(),
            forall|id: Seq<char>| self@.contains_key(id) <==> self.ids().contains(id),
            forall|id: Seq<char>| #[trigger] self@.contains_key(id) ==> self@[id].wf(),
    {
    }

    /// A store without games.
    pub fn new() -> (store: Self)
        ensures
            store@ == Map::<Seq<char>, GameStateView>::empty(),
            store.ids() == Seq::<Seq<char>>::empty(),
    {
        GameStateStore { games: Keyed::new() }
    }

    /// How many games are stored.
    pub fn len(&self) -> (n: usize)
        ensures
            n == self.ids().len(),
    {
        self.games.len()
    }

    /// Whether a game is stored under `game_id`.
    pub fn contains(&self, game_id: &GameId) -> (found: bool)
        ensures
            found == self@.contains_key(game_id@),
    {
        proof {
            use_type_invariant(self);
        }
        self.games.contains_key(game_id)
    }

    /// An identifier under which no game is stored: `candidate` itself where
    /// it is free, else `candidate` with as many `0` behind it as it takes.
    pub fn unused_id(&self, candidate: GameId) -> (game_id: GameId)
        ensures
            first_unused(self@.dom(), candidate@, game_id@),
            !self@.contains_key(game_id@),
    {
        proof {
            use_type_invariant(self);
        }
        self.games.unused_key(candidate)
    }

    /// A copy of the state stored under `game_id`, if there is one.
    pub fn get(&self, game_id: &GameId) -> (found: Option<GameState>)
        ensures
            match found {
                Some(state) => self@.contains_key(game_id@) && state@ == self@[game_id@],
                None => !self@.contains_key(game_id@),
            },
    {
        proof {
            use_type_invariant(self);
        }
        match self.games.get(game_id) {
            Some(state) => Some(state.clone()),
            None => None,
        }
    }

    /// Stores `state` under `game_id`, in place of what was stored there.
    pub fn set(&mut self, game_id: GameId, state: GameState)
        ensures
            final(self)@ == old(self)@.insert(game_id@, state@),
            final(self).ids() == if old(self)@.contains_key(game_id@) {
                old(self).ids()
            } else {
                old(self).ids().push(game_id@)
            },
    {
        proof {
            use_type_invariant(&*self);
            use_type_invariant(&state);
            state.lemma_wf();
        }
        let mut games: Keyed<GameState> = Keyed::new();
        std::mem::swap(&mut games, &mut self.games);
        games.set(game_id, state);
        self.games = games;
    }

    /// Takes the game stored under `game_id` out of the store and hands its
    /// state back.
    pub fn remove(&mut self, game_id: &GameId) -> (removed: Option<GameState>)
        ensures
            final(self)@ == old(self)@.remove(game_id@),
            final(self).ids() == without(old(self).ids(), game_id@),
            match removed {
                Some(state) => old(self)@.contains_key(game_id@) && state@ == old(self)@[game_id@],
                None => !old(self)@.contains_key(game_id@),
            },
    {
        proof {
            use_type_invariant(&*self);
        }
        let mut games: Keyed<GameState> = Keyed::new();
        std::mem::swap(&mut games, &mut self.games);
        let removed = games.remove(game_id);
        self.games = games;
        removed
    }
}

} // verus!
