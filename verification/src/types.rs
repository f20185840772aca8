//! Names, identifiers and the per-player game data shared by every module.

use vstd::prelude::*;

verus! {

/// The name a player registers under.
pub type PlayerName = String;

/// The identifier of one running game.
pub type GameId = String;

/// The opaque identifier issued at registration; it ties a registration to
/// the connection opened later.
pub type Token = String;

/// Stands for a connection's delivery channel. The channel itself is owned by
/// whoever runs the connection; the broker only records which one it is.
pub type ChannelId = u64;

/// The name of the game, as a player's program shows it.
pub const GAME_NAME: &'static str = "YourGame";

/// The author of the game, as a player's program shows it.
pub const GAME_AUTHOR: &'static str = "You";

/// The host on which the broker listens.
pub const GAME_SERVER_HOST: &'static str = "127.0.0.1";

/// The port on which the broker listens.
pub const GAME_SERVER_PORT: u32 = 8191;

/// How long the broker waits between two polls of the matchmaking queue, in
/// milliseconds.
pub const MATCHMAKING_POLL_MILLIS: u64 = 100;

/// How long a session waits between two ticks of its game, in milliseconds.
pub const TICK_MILLIS: u64 = 100;

/// The characters of each text of a list.
pub open spec fn texts(list: Seq<String>) -> Seq<Seq<char>> {
    Seq::new(list.len(), |i: int| list[i]@)
}

/// The characters of an optional text.
pub open spec fn text_view(text: Option<String>) -> Option<Seq<char>> {
    match text {
        Some(s) => Some(s@),
        None => None,
    }
}

/// A copy of an optional text.
pub fn clone_text(text: &Option<String>) -> (copy: Option<String>)
    ensures
        text_view(copy) == text_view(*text),
{
    match text {
        Some(s) => Some(s.clone()),
        None => None,
    }
}

/// What the simulation keeps for one player of a game.
#[derive(Debug, PartialEq, Eq, Structural)]
pub struct PlayerState {
}

impl Clone for PlayerState {
    fn clone(&self) -> (copy: Self)
        ensures
            copy == *self,
    {
        PlayerState {  }
    }
}

impl Default for PlayerState {
    fn default() -> (state: Self)
        ensures
            state == (PlayerState {  }),
    {
        PlayerState {  }
    }
}

/// Something a player asks the simulation to do.
#[derive(Debug, PartialEq, Eq, Structural)]
pub enum Action {
    MyAction,
}

impl Clone for Action {
    fn clone(&self) -> (copy: Self)
        ensures
            copy == *self,
    {
        match self {
            Action::MyAction => Action::MyAction,
        }
    }
}

} // verus!
