//! The players that are registered, by the token each was given.

use vstd::prelude::*;
use crate::error::{Error, ErrorView};
use crate::ids::{is_random_id, random_id};
use crate::keyed::Keyed;
use crate::keys::{first_unused, without};
use crate::types::{clone_text, text_view, ChannelId, GameId, PlayerName, Token};

verus! {

/// A registered player.
#[derive(Debug)]
pub struct Client {
    pub player_name: PlayerName,
    /// The game the player is in, once paired.
    pub game_id: Option<GameId>,
    /// The channel of the player's connection, once it is open.
    pub sender: Option<ChannelId>,
}

/// A `Client` as contracts see it.
pub struct ClientView {
    pub player_name: Seq<char>,
    pub game_id: Option<Seq<char>>,
    pub sender: Option<ChannelId>,
}

impl View for Client {
    type V = ClientView;

    open spec fn view(&self) -> ClientView {
        ClientView {
            player_name: self.player_name@,
            game_id: text_view(self.game_id),
            sender: self.sender,
        }
    }
}

impl Clone for Client {
    fn clone(&self) -> (copy: Self)
        ensures
            copy@ == self@,
    {
        Client {
            player_name: self.player_name.clone(),
            game_id: clone_text(&self.game_id),
            sender: self.sender,
        }
    }
}

impl ClientView {
    /// A player as first registered: in no game, with no connection.
    pub open spec fn registered(player_name: Seq<char>) -> ClientView {
        ClientView { player_name, game_id: None, sender: None }
    }

    /// The player with `channel` as the connection's channel.
    pub open spec fn attached(self, channel: ChannelId) -> ClientView {
        ClientView { sender: Some(channel), ..self }
    }

    /// The player as a player of `game_id`.
    pub open spec fn matched(self, game_id: Seq<char>) -> ClientView {
        ClientView { game_id: Some(game_id), ..self }
    }
}

/// The registered players.
pub struct ClientRegistry {
    clients: Keyed<Client>,
}

impl View for ClientRegistry {
    type V = Map<Seq<char>, ClientView>;

    closed spec fn view(&self) -> Map<Seq<char>, ClientView> {
        self.clients@
    }
}

/// The players under `tokens`, in the order of `tokens`.
pub open spec fn in_order_of(tokens: Seq<Seq<char>>, clients: Map<Seq<char>, ClientView>) -> Seq<
    ClientView,
> {
    Seq::new(tokens.len(), |i: int| clients[tokens[i]])
}

/// Whether `token` is that of a registered player who is in no game.
pub open spec fn waiting(clients: Map<Seq<char>, ClientView>, token: Seq<char>) -> bool {
    clients.contains_key(token) && clients[token].game_id.is_none()
}

/// Recording the same channel for a player twice is the same as recording
/// it once.
pub proof fn lemma_attach_is_idempotent(
    clients: Map<Seq<char>, ClientView>,
    token: Seq<char>,
    channel: ChannelId,
)
    requires
        clients.contains_key(token),
    ensures
        ({
            let once = clients.insert(token, clients[token].attached(channel));
            once.insert(token, once[token].attached(channel)) == once
        }),
{
    let once = clients.insert(token, clients[token].attached(channel));
    assert(once.insert(token, once[token].attached(channel)) =~= once);
}

impl ClientRegistry {
    /// What holds of every registry: no token is registered twice.
    #[verifier::type_invariant]
    pub closed spec fn inv(&self) -> bool {
        self.clients.wf()
    }

    /// The tokens of the registered players, in the order of registration.
    pub closed spec fn tokens(&self) -> Seq<Seq<char>> {
        self.clients.keys()
    }

    /// The registered players, in the order of registration.
    pub open spec fn in_order(&self) -> Seq<ClientView> {
        in_order_of(self.tokens(), self@)
    }

    /// The tokens are those of the registered players, each once.
    pub proof fn lemma_inv(&self)
        requires
            self.inv(),
        ensures
            self.tokens().no_duplicates(),
            forall|token: Seq<char>| self@.contains_key(token) <==> self.tokens().contains(token),
    {
    }

    /// A registry without players.
    pub fn new() -> (registry: Self)
        ensures
            registry@ == Map::<Seq<char>, ClientView>::empty(),
            registry.tokens() == Seq::<Seq<char>>::empty(),
    {
        ClientRegistry { clients: Keyed::new() }
    }

    /// How many players are registered.
    pub fn len(&self) -> (n: usize)
        ensures
            n == self.tokens().len(),
    {
        self.clients.len()
    }

    /// The token of the player registered as the `i`-th.
    pub fn token_at(&self, i: usize) -> (token: &Token)
        requires
            i < self.tokens().len(),
        ensures
            token@ == self.tokens()[i as int],
    {
        &self.clients.entries[i].key
    }

    /// The player registered as the `i`-th.
    pub fn client_at(&self, i: usize) -> (client: &Client)
        requires
            i < self.tokens().len(),
        ensures
            self@.contains_key(self.tokens()[i as int]),
            client@ == self@[self.tokens()[i as int]],
    {
        proof {
            use_type_invariant(self);
            self.clients.lemma_row(i as int);
        }
        &self.clients.entries[i].value
    }

    /// Whether a player is registered under `token`.
    pub fn contains(&self, token: &Token) -> (found: bool)
        ensures
            found == self@.contains_key(token@),
    {
        proof {
            use_type_invariant(self);
        }
        self.clients.contains_key(token)
    }

    /// A copy of the player registered under `token`, if there is one.
    pub fn lookup(&self, token: &Token) -> (found: Option<Client>)
        ensures
            match found {
                Some(client) => self@.contains_key(token@) && client@ == self@[token@],
                None => !self@.contains_key(token@),
            },
    {
        proof {
            use_type_invariant(self);
        }
        match self.clients.get(token) {
            Some(client) => Some(client.clone()),
            None => None,
        }
    }

    /// Registers a player under a token made from `candidate`: under
    /// `candidate` itself unless a registered player has it, in which case
    /// `0` is put behind it until no registered player has the result. The
    /// player starts in no game and with no connection.
    pub fn register_client(&mut self, candidate: Token, player_name: PlayerName) -> (token: Token)
        ensures
            !old(self)@.contains_key(token@),
            first_unused(old(self)@.dom(), candidate@, token@),
            final(self)@ == old(self)@.insert(token@, ClientView::registered(player_name@)),
            final(self).tokens() == old(self).tokens().push(token@),
    {
        proof {
            use_type_invariant(&*self);
        }
        let mut clients: Keyed<Client> = Keyed::new();
        std::mem::swap(&mut clients, &mut self.clients);
        let token = clients.unused_key(candidate);
        clients.set(token.clone(), Client { player_name, game_id: None, sender: None });
        self.clients = clients;
        token
    }

    /// Registers a player under a fresh random token and hands the token
    /// back. No player registered before has the same token.
    pub fn register(&mut self, player_name: PlayerName) -> (token: Token)
        ensures
            !old(self)@.contains_key(token@),
            exists|candidate: Seq<char>| #[trigger]
                is_random_id(candidate) && first_unused(old(self)@.dom(), candidate, token@),
            final(self)@ == old(self)@.insert(token@, ClientView::registered(player_name@)),
            final(self).tokens() == old(self).tokens().push(token@),
    {
        let candidate = random_id();
        self.register_client(candidate, player_name)
    }

    /// Records `channel` as the channel of the connection of the player
    /// under `token`, in place of an earlier one; `NoPlayer`, and no change,
    /// where no player is registered under `token`.
    pub fn attach_outbound(&mut self, token: &Token, channel: ChannelId) -> (done: Result<(), Error>)
        ensures
            match done {
                Ok(_) => old(self)@.contains_key(token@) && final(self)@ == old(self)@.insert(
                    token@,
                    old(self)@[token@].attached(channel),
                ),
                Err(e) => !old(self)@.contains_key(token@) && final(self)@ == old(self)@ && e@
                    == ErrorView::NoPlayer("no player is registered under this token"@),
            },
            final(self).tokens() == old(self).tokens(),
    {
        proof {
            use_type_invariant(&*self);
        }
        match self.clients.get(token) {
            Some(client) => {
                let updated = Client {
                    player_name: client.player_name.clone(),
                    game_id: clone_text(&client.game_id),
                    sender: Some(channel),
                };
                let mut clients: Keyed<Client> = Keyed::new();
                std::mem::swap(&mut clients, &mut self.clients);
                clients.set(token.clone(), updated);
                self.clients = clients;
                Ok(())
            },
            None => Err(Error::NoPlayer("no player is registered under this token".to_owned())),
        }
    }

    /// Records that the player under `token` plays the game `game_id`. A
    /// player's game is set once: `NoPlayer`, and no change, where `token` is
    /// not that of a registered player who is in no game.
    pub fn assign_game(&mut self, token: &Token, game_id: &GameId) -> (done: Result<(), Error>)
        ensures
            match done {
                Ok(_) => waiting(old(self)@, token@) && final(self)@ == old(self)@.insert(
                    token@,
                    old(self)@[token@].matched(game_id@),
                ),
                Err(e) => !waiting(old(self)@, token@) && final(self)@ == old(self)@ && e@
                    == ErrorView::NoPlayer("no waiting player has this token"@),
            },
            final(self).tokens() == old(self).tokens(),
    {
        proof {
            use_type_invariant(&*self);
        }
        match self.clients.get(token) {
            Some(client) => {
                if client.game_id.is_some() {
                    return Err(Error::NoPlayer("no waiting player has this token".to_owned()));
                }
                let updated = Client {
                    player_name: client.player_name.clone(),
                    game_id: Some(game_id.clone()),
                    sender: client.sender,
                };
                let mut clients: Keyed<Client> = Keyed::new();
                std::mem::swap(&mut clients, &mut self.clients);
                clients.set(token.clone(), updated);
                self.clients = clients;
                Ok(())
            },
            None => Err(Error::NoPlayer("no waiting player has this token".to_owned())),
        }
    }

    /// Takes the player under `token` out of the registry and hands the
    /// player back.
    pub fn remove(&mut self, token: &Token) -> (removed: Option<Client>)
        ensures
            final(self)@ == old(self)@.remove(token@),
            final(self).tokens() == without(old(self).tokens(), token@),
            match removed {
                Some(client) => old(self)@.contains_key(token@) && client@ == old(self)@[token@],
                None => !old(self)@.contains_key(token@),
            },
    {
        proof {
            use_type_invariant(&*self);
        }
        let mut clients: Keyed<Client> = Keyed::new();
        std::mem::swap(&mut clients, &mut self.clients);
        let removed = clients.remove(token);
        self.clients = clients;
        removed
    }
}

} // verus!
