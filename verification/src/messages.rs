//! The messages that travel between players and the broker.

use vstd::prelude::*;
use crate::types::{clone_text, text_view, Action, GameId, PlayerName, PlayerState};

verus! {

/// What a player sends to be registered.
#[derive(Debug)]
pub struct RegisterRequest {
    pub player_name: PlayerName,
}

/// The answer to a registration: the address at which the player's
/// connection is opened.
#[derive(Debug)]
pub struct RegisterResponse {
    pub url: String,
}

/// A message from a player's connection.
#[derive(Debug, PartialEq, Eq, Structural)]
pub enum ClientMessage {
    PressedA,
}

impl Clone for ClientMessage {
    fn clone(&self) -> (copy: Self)
        ensures
            copy == *self,
    {
        match self {
            ClientMessage::PressedA => ClientMessage::PressedA,
        }
    }
}

impl ClientMessage {
    /// The name by which the message is tagged on the wire.
    pub open spec fn tag(self) -> Seq<char> {
        match self {
            ClientMessage::PressedA => "PressedA"@,
        }
    }

    /// What the message asks of the simulation.
    pub open spec fn spec_action(self) -> Action {
        match self {
            ClientMessage::PressedA => Action::MyAction,
        }
    }

    /// What the message asks of the simulation.
    pub fn action(&self) -> (action: Action)
        ensures
            action == self.spec_action(),
    {
        match self {
            ClientMessage::PressedA => Action::MyAction,
        }
    }
}

/// A message from the broker to a player's connection.
#[derive(Debug)]
pub enum ServerMessage {
    /// The player was paired; the field names the opponent.
    MatchFound(PlayerName),
    /// The state of a game changed. A message for one player names that
    /// player and carries that player's state; a message for everyone in the
    /// game carries neither.
    StateUpdate { game_id: GameId, player_name: Option<PlayerName>, player_state: Option<PlayerState> },
    /// The game has ended and is no longer stored.
    GameOver { game_id: GameId },
}

/// A `ServerMessage` as contracts see it.
pub enum ServerMessageView {
    MatchFound(Seq<char>),
    StateUpdate { game_id: Seq<char>, player_name: Option<Seq<char>>, player_state: Option<PlayerState> },
    GameOver { game_id: Seq<char> },
}

impl View for ServerMessage {
    type V = ServerMessageView;

    open spec fn view(&self) -> ServerMessageView {
        match self {
            ServerMessage::MatchFound(name) => ServerMessageView::MatchFound(name@),
            ServerMessage::StateUpdate { game_id, player_name, player_state } => {
                ServerMessageView::StateUpdate {
                    game_id: game_id@,
                    player_name: text_view(*player_name),
                    player_state: *player_state,
                }
            },
            ServerMessage::GameOver { game_id } => ServerMessageView::GameOver { game_id: game_id@ },
        }
    }
}

impl Clone for ServerMessage {
    fn clone(&self) -> (copy: Self)
        ensures
            copy@ == self@,
    {
        match self {
            ServerMessage::MatchFound(name) => ServerMessage::MatchFound(name.clone()),
            ServerMessage::StateUpdate { game_id, player_name, player_state } => {
                let state = match player_state {
                    Some(s) => Some(s.clone()),
                    None => None,
                };
                ServerMessage::StateUpdate {
                    game_id: game_id.clone(),
                    player_name: clone_text(player_name),
                    player_state: state,
                }
            },
            ServerMessage::GameOver { game_id } => ServerMessage::GameOver { game_id: game_id.clone() },
        }
    }
}

} // verus!
