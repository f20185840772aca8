//! What a player's program knows of its own game.
//!
//! The program keeps a `GameClient`, feeds it the messages that come from
//! the broker, and sends the broker what `update` hands back.

use vstd::prelude::*;
use crate::input::GameButton;
use crate::messages::{ClientMessage, ServerMessage, ServerMessageView};
use crate::types::{text_view, GameId, PlayerName, PlayerState};

verus! {

/// A player's own view of the game.
#[derive(Debug)]
pub struct GameClient {
    player_name: PlayerName,
    player_state: PlayerState,
    opponent: Option<PlayerName>,
    game_id: Option<GameId>,
}

/// A `GameClient` as contracts see it.
pub struct GameClientView {
    pub player_name: Seq<char>,
    /// The player's state as last reported.
    pub player_state: PlayerState,
    /// The opponent, once a match was announced.
    pub opponent: Option<Seq<char>>,
    /// The game the player is known to be in.
    pub game_id: Option<Seq<char>>,
}

impl View for GameClient {
    type V = GameClientView;

    closed spec fn view(&self) -> GameClientView {
        GameClientView {
            player_name: self.player_name@,
            player_state: self.player_state,
            opponent: text_view(self.opponent),
            game_id: text_view(self.game_id),
        }
    }
}

impl GameClientView {
    /// The view after a message from the broker.
    ///
    /// A match names the opponent. A state update that names no player, or
    /// this one, tells which game the player is in, and brings the player's
    /// state if it names this player and carries one; an update that names
    /// another player changes nothing. The end of the player's game leaves
    /// the player without game and opponent; the end of another changes
    /// nothing.
    pub open spec fn after(self, message: ServerMessageView) -> GameClientView {
        match message {
            ServerMessageView::MatchFound(opponent) => GameClientView {
                opponent: Some(opponent),
                ..self
            },
            ServerMessageView::StateUpdate { game_id, player_name, player_state } => {
                match player_name {
                    None => GameClientView { game_id: Some(game_id), ..self },
                    Some(name) => if name == self.player_name {
                        GameClientView {
                            game_id: Some(game_id),
                            player_state: match player_state {
                                Some(state) => state,
                                None => self.player_state,
                            },
                            ..self
                        }
                    } else {
                        self
                    },
                }
            },
            ServerMessageView::GameOver { game_id } => if self.game_id == Some(game_id) {
                GameClientView { game_id: None, opponent: None, ..self }
            } else {
                self
            },
        }
    }

    /// The view after an update in which `incoming` came from the broker.
    pub open spec fn after_update(self, incoming: Option<ServerMessageView>) -> GameClientView {
        match incoming {
            Some(message) => self.after(message),
            None => self,
        }
    }
}

/// A message from the broker, if there is one, as contracts see it.
pub open spec fn incoming_view(incoming: Option<ServerMessage>) -> Option<ServerMessageView> {
    match incoming {
        Some(message) => Some(message@),
        None => None,
    }
}

/// What is sent to the broker when `pressed` is the button held down.
pub open spec fn outgoing(pressed: Option<GameButton>) -> Option<ClientMessage> {
    match pressed {
        Some(button) => Some(button.spec_message()),
        None => None,
    }
}

impl GameClient {
    /// The view of a player who has just registered as `player_name`: the
    /// default state, no opponent, no game.
    pub fn new(player_name: PlayerName) -> (client: Self)
        ensures
            client@ == (GameClientView {
                player_name: player_name@,
                player_state: PlayerState {  },
                opponent: None,
                game_id: None,
            }),
    {
        GameClient {
            player_name,
            player_state: PlayerState::default(),
            opponent: None,
            game_id: None,
        }
    }

    /// The name the player registered under.
    pub fn player_name(&self) -> (name: &PlayerName)
        ensures
            name@ == self@.player_name,
    {
        &self.player_name
    }

    /// The player's state as last reported.
    pub fn player_state(&self) -> (state: &PlayerState)
        ensures
            *state == self@.player_state,
    {
        &self.player_state
    }

    /// The opponent, once a match was announced.
    pub fn opponent(&self) -> (opponent: &Option<PlayerName>)
        ensures
            text_view(*opponent) == self@.opponent,
    {
        &self.opponent
    }

    /// The game the player is known to be in.
    pub fn game_id(&self) -> (game_id: &Option<GameId>)
        ensures
            text_view(*game_id) == self@.game_id,
    {
        &self.game_id
    }

    /// Takes a message from the broker into the view.
    pub fn handle_server_msg(&mut self, msg: ServerMessage)
        ensures
            final(self)@ == old(self)@.after(msg@),
    {
        match msg {
            ServerMessage::MatchFound(opponent) => {
                self.opponent = Some(opponent);
            },
            ServerMessage::StateUpdate { game_id, player_name, player_state } => {
                match player_name {
                    None => {
                        self.game_id = Some(game_id);
                    },
                    Some(name) => {
                        if name == self.player_name {
                            self.game_id = Some(game_id);
                            match player_state {
                                Some(state) => {
                                    self.player_state = state;
                                },
                                None => {},
                            }
                        }
                    },
                }
            },
            ServerMessage::GameOver { game_id } => {
                let ours = match &self.game_id {
                    Some(current) => *current == game_id,
                    None => false,
                };
                if ours {
                    self.game_id = None;
                    self.opponent = None;
                }
            },
        }
    }

    /// One round of the player's program: the message that came from the
    /// broker, if any, is taken into the view, and the button that is held
    /// down, if any, becomes the message to send.
    pub fn update(&mut self, incoming: Option<ServerMessage>, pressed: Option<GameButton>) -> (send:
        Option<ClientMessage>)
        ensures
            final(self)@ == old(self)@.after_update(incoming_view(incoming)),
            send == outgoing(pressed),
    {
        match incoming {
            Some(message) => {
                self.handle_server_msg(message);
            },
            None => {},
        }
        match pressed {
            Some(button) => Some(button.message()),
            None => None,
        }
    }
}

} // verus!
