//! The state of one game: who plays it, and what the simulation keeps for
//! each of them.

use vstd::prelude::*;
use crate::error::{Error, ErrorView};
use crate::types::{texts, PlayerName, PlayerState};

verus! {

/// The state of one running game between two players.
///
/// The players are fixed when the game is made. There is a state for each name
/// among them and for no other name.
#[derive(Debug)]
pub struct GameState {
    participants: Vec<PlayerName>,
    states: Vec<PlayerState>,
}

/// A `GameState` as contracts see it.
pub struct GameStateView {
    /// The two players, in the order in which they were paired.
    pub participants: Seq<Seq<char>>,
    /// The state of each player, by name.
    pub player_states: Map<Seq<char>, PlayerState>,
}

impl GameStateView {
    /// There are two players, and the states are keyed by exactly their
    /// names.
    pub open spec fn wf(self) -> bool {
        &&& self.participants.len() == 2
        &&& self.player_states.dom() =~= self.participants.to_set()
    }

    /// Whether `name` is one of the players.
    pub open spec fn has_player(self, name: Seq<char>) -> bool {
        self.participants.contains(name)
    }

    /// The same game with `state` as the state of `name`.
    pub open spec fn with_player_state(self, name: Seq<char>, state: PlayerState) -> GameStateView {
        GameStateView {
            participants: self.participants,
            player_states: self.player_states.insert(name, state),
        }
    }

    /// The same players with the states that `answer` has for them; a
    /// player for whom `answer` has none keeps the state.
    pub open spec fn adopting(self, answer: GameStateView) -> GameStateView {
        GameStateView {
            participants: self.participants,
            player_states: Map::new(
                |name: Seq<char>| self.participants.contains(name),
                |name: Seq<char>|
                    if answer.has_player(name) {
                        answer.player_states[name]
                    } else {
                        self.player_states[name]
                    },
            ),
        }
    }

    /// The first player that does not go by `name`, if there is one.
    pub open spec fn opponent_of(self, name: Seq<char>) -> Option<Seq<char>> {
        if self.participants[0] != name {
            Some(self.participants[0])
        } else if self.participants[1] != name {
            Some(self.participants[1])
        } else {
            None
        }
    }
}

/// A game that takes its states from a game of the same players becomes
/// that game; and whatever game it takes them from, it keeps its players
/// and stays well formed.
pub proof fn lemma_adopting(game: GameStateView, answer: GameStateView)
    requires
        game.wf(),
    ensures
        game.adopting(answer).wf(),
        game.adopting(answer).participants == game.participants,
        answer.wf() && answer.participants == game.participants ==> game.adopting(answer) == answer,
{
    let adopted = game.adopting(answer);
    assert(adopted.player_states.dom() =~= game.participants.to_set());
    if answer.wf() && answer.participants == game.participants {
        assert(adopted.player_states =~= answer.player_states);
    }
}

/// The game that starts between two players: each with the default state.
pub open spec fn initial_game(first: Seq<char>, second: Seq<char>) -> GameStateView {
    GameStateView {
        participants: seq![first, second],
        player_states: Map::new(
            |name: Seq<char>| name == first || name == second,
            |name: Seq<char>| (PlayerState {  }),
        ),
    }
}

impl View for GameState {
    type V = GameStateView;

    closed spec fn view(&self) -> GameStateView {
        GameStateView {
            participants: texts(self.participants@),
            player_states: Map::new(
                |name: Seq<char>| texts(self.participants@).contains(name),
                |name: Seq<char>|
                    if name == self.participants@[0]@ {
                        self.states@[0]
                    } else {
                        self.states@[1]
                    },
            ),
        }
    }
}

impl GameState {
    /// What holds of every game: it has two players and a state for each.
    #[verifier::type_invariant]
    pub closed spec fn inv(&self) -> bool {
        self.participants@.len() == 2 && self.states@.len() == 2
    }

    /// Every game is well formed.
    pub proof fn lemma_wf(&self)
        requires
            self.inv(),
        ensures
            self@.wf(),
    {
    }

    /// The game that starts between two players.
    pub fn new(participants: [PlayerName; 2]) -> (game: Self)
        ensures
            game@ == initial_game(participants@[0]@, participants@[1]@),
            game@.wf(),
    {
        let mut names: Vec<PlayerName> = Vec::new();
        names.push(participants[0].clone());
        names.push(participants[1].clone());
        let mut states: Vec<PlayerState> = Vec::new();
        states.push(PlayerState::default());
        states.push(PlayerState::default());
        let game = GameState { participants: names, states };
        proof {
            let first = participants@[0]@;
            let second = participants@[1]@;
            let names = texts(game.participants@);
            assert(names =~= seq![first, second]);
            assert forall|name: Seq<char>| names.contains(name) <==> (name == first || name
                == second) by {
                if name == first {
                    assert(names[0] == name);
                }
                if name == second {
                    assert(names[1] == name);
                }
            }
            assert(game@.player_states =~= initial_game(first, second).player_states);
        }
        game
    }

    /// The two players, in the order in which they were paired.
    pub fn participants(&self) -> (names: &Vec<PlayerName>)
        ensures
            texts(names@) == self@.participants,
            names@.len() == 2,
    {
        proof {
            use_type_invariant(self);
        }
        &self.participants
    }

    /// Whether `name` is one of the players.
    pub fn has_player(&self, name: &String) -> (found: bool)
        ensures
            found == self@.has_player(name@),
    {
        proof {
            use_type_invariant(self);
        }
        let found = self.participants[0] == *name || self.participants[1] == *name;
        proof {
            let names = texts(self.participants@);
            if found {
                if self.participants@[0]@ == name@ {
                    assert(names[0] == name@);
                } else {
                    assert(names[1] == name@);
                }
            }
        }
        found
    }

    /// The state of the player `name`; `NoPlayer` where `name` is none of
    /// the players.
    pub fn player_state(&self, name: &String) -> (found: Result<&PlayerState, Error>)
        ensures
            match found {
                Ok(state) => self@.has_player(name@) && *state == self@.player_states[name@],
                Err(e) => !self@.has_player(name@) && e@ == ErrorView::NoPlayer(
                    "no such player in the game"@,
                ),
            },
    {
        proof {
            use_type_invariant(self);
        }
        if self.participants[0] == *name {
            proof {
                assert(texts(self.participants@)[0] == name@);
            }
            Ok(&self.states[0])
        } else if self.participants[1] == *name {
            proof {
                assert(texts(self.participants@)[1] == name@);
            }
            Ok(&self.states[1])
        } else {
            Err(Error::NoPlayer("no such player in the game".to_owned()))
        }
    }

    /// Replaces the state of the player `name`; `NoPlayer`, and no change,
    /// where `name` is none of the players.
    pub fn set_player_state(&mut self, name: &String, state: PlayerState) -> (done: Result<(), Error>)
        ensures
            match done {
                Ok(_) => {
                    &&& old(self)@.has_player(name@)
                    &&& final(self)@ == old(self)@.with_player_state(name@, state)
                },
                Err(e) => {
                    &&& !old(self)@.has_player(name@)
                    &&& final(self)@ == old(self)@
                    &&& e@ == ErrorView::NoPlayer("no such player in the game"@)
                },
            },
            final(self)@.wf(),
    {
        proof {
            use_type_invariant(&*self);
        }
        let ghost before = *self;
        let slot: usize = if self.participants[0] == *name {
            0
        } else if self.participants[1] == *name {
            1
        } else {
            return Err(Error::NoPlayer("no such player in the game".to_owned()));
        };
        let mut states: Vec<PlayerState> = Vec::new();
        if slot == 0 {
            states.push(state);
            states.push(self.states[1].clone());
        } else {
            states.push(self.states[0].clone());
            states.push(state);
        }
        self.states = states;
        proof {
            let names = texts(self.participants@);
            assert(names[slot as int] == name@);
            assert(self@.player_states =~= before@.with_player_state(name@, state).player_states);
        }
        Ok(())
    }

    /// The game with the states that `answer` has for its players. Who
    /// plays does not change, whatever `answer` says of it.
    pub fn adopt(&self, answer: &GameState) -> (adopted: Self)
        ensures
            adopted@ == self@.adopting(answer@),
            adopted@.wf(),
    {
        proof {
            use_type_invariant(self);
            use_type_invariant(answer);
            self.lemma_wf();
            answer.lemma_wf();
        }
        let first = match answer.player_state(&self.participants[0]) {
            Ok(state) => state.clone(),
            Err(_) => self.states[0].clone(),
        };
        let second = match answer.player_state(&self.participants[1]) {
            Ok(state) => state.clone(),
            Err(_) => self.states[1].clone(),
        };
        let mut names: Vec<PlayerName> = Vec::new();
        names.push(self.participants[0].clone());
        names.push(self.participants[1].clone());
        let mut states: Vec<PlayerState> = Vec::new();
        states.push(first);
        states.push(second);
        let adopted = GameState { participants: names, states };
        proof {
            let players = texts(self.participants@);
            assert(texts(adopted.participants@) =~= players);
            assert(players[0] == self.participants@[0]@);
            assert(players[1] == self.participants@[1]@);
            assert forall|name: Seq<char>| players.contains(name) implies name == players[0]
                || name == players[1] by {
                let i = players.index_of(name);
                assert(players[i] == name);
            }
            assert(adopted@.player_states =~= self@.adopting(answer@).player_states);
            lemma_adopting(self@, answer@);
        }
        adopted
    }

    /// The first player that does not go by `name`, if there is one.
    pub fn opponent_of(&self, name: &String) -> (other: Option<&PlayerName>)
        ensures
            match other {
                Some(opponent) => self@.opponent_of(name@) == Some(opponent@),
                None => self@.opponent_of(name@).is_none(),
            },
    {
        proof {
            use_type_invariant(self);
        }
        if self.participants[0] != *name {
            Some(&self.participants[0])
        } else if self.participants[1] != *name {
            Some(&self.participants[1])
        } else {
            None
        }
    }
}

impl Clone for GameState {
    fn clone(&self) -> (copy: Self)
        ensures
            copy@ == self@,
    {
        proof {
            use_type_invariant(self);
        }
        let mut names: Vec<PlayerName> = Vec::new();
        names.push(self.participants[0].clone());
        names.push(self.participants[1].clone());
        let mut states: Vec<PlayerState> = Vec::new();
        states.push(self.states[0].clone());
        states.push(self.states[1].clone());
        let copy = GameState { participants: names, states };
        proof {
            assert(texts(copy.participants@) =~= texts(self.participants@));
            assert(copy@.player_states =~= self@.player_states);
        }
        copy
    }
}

} // verus!
