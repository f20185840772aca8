//! Applying what a player does to the player's game.

use vstd::prelude::*;
use crate::error::{Error, ErrorView};
use crate::gamestate::{GameState, GameStateView};
use crate::messages::{ClientMessage, ServerMessage, ServerMessageView};
use crate::registry::{ClientRegistry, ClientView};
use crate::relay::{deliveries_view, publish_to_player, published, Delivery, PublishParamsView};
use crate::rules::GameRules;
use crate::store::GameStateStore;
use crate::types::{Action, GameId, PlayerName, Token};

verus! {

/// Applies `action` of the player `player_name` to the game `game_id`: the
/// state is read and handed to the rules, and the game with the states that
/// they give back for its players is stored in its place and handed back.
///
/// `NoGame` where no game is stored under `game_id`, `NoPlayer` where the
/// game has no player of that name; then nothing is stored.
pub fn player_action<R: GameRules>(
    rules: &R,
    player_name: &PlayerName,
    game_id: &GameId,
    action: &Action,
    games: &mut GameStateStore,
) -> (applied: Result<GameState, Error>)
    ensures
        !old(games)@.contains_key(game_id@) ==> {
            &&& applied matches Err(e) && e@ == ErrorView::NoGame("no such game"@)
            &&& final(games)@ == old(games)@
        },
        old(games)@.contains_key(game_id@) && !old(games)@[game_id@].has_player(player_name@) ==> {
            &&& applied matches Err(e) && e@ == ErrorView::NoPlayer("no such player in the game"@)
            &&& final(games)@ == old(games)@
        },
        old(games)@.contains_key(game_id@) && old(games)@[game_id@].has_player(player_name@) ==> {
            &&& applied matches Ok(state)
            &&& exists|answer: GameStateView| #[trigger]
                old(games)@[game_id@].adopting(answer) == state@
            &&& state@.participants == old(games)@[game_id@].participants
            &&& state@.wf()
            &&& final(games)@ == old(games)@.insert(game_id@, state@)
        },
        final(games).ids() == old(games).ids(),
{
    let state = match games.get(game_id) {
        Some(state) => state,
        None => {
            return Err(Error::NoGame("no such game".to_owned()));
        },
    };
    if !state.has_player(player_name) {
        return Err(Error::NoPlayer("no such player in the game".to_owned()));
    }
    let answer = rules.apply(player_name, action, &state);
    let next = state.adopt(&answer);
    games.set(game_id.clone(), next.clone());
    Ok(next)
}

/// The report to a player of the player's own state in a game.
pub open spec fn own_state_report(
    game_id: Seq<char>,
    player: Seq<char>,
    state: GameStateView,
) -> ServerMessageView {
    ServerMessageView::StateUpdate {
        game_id,
        player_name: Some(player),
        player_state: Some(state.player_states[player]),
    }
}

/// What serving a message of the player under `token` comes to: the
/// player's action is applied to the player's game and the player's own
/// state is reported back, or the message is refused and no game changes.
pub open spec fn served_as_message(
    token: Seq<char>,
    clients: Map<Seq<char>, ClientView>,
    in_order: Seq<ClientView>,
    before: Map<Seq<char>, GameStateView>,
    after: Map<Seq<char>, GameStateView>,
    served: Result<Vec<Delivery>, Error>,
) -> bool {
    if !clients.contains_key(token) {
        after == before && (served matches Err(e) && e@ == ErrorView::NoPlayer(
            "no player is registered under this token"@,
        ))
    } else {
        let player = clients[token].player_name;
        match clients[token].game_id {
            None => after == before && (served matches Err(e) && e@ == ErrorView::NoGame(
                "player not in a game"@,
            )),
            Some(game_id) => if !before.contains_key(game_id) {
                after == before && (served matches Err(e) && e@ == ErrorView::NoGame(
                    "no such game"@,
                ))
            } else if !before[game_id].has_player(player) {
                after == before && (served matches Err(e) && e@ == ErrorView::NoPlayer(
                    "no such player in the game"@,
                ))
            } else {
                &&& served matches Ok(deliveries)
                &&& after.contains_key(game_id)
                &&& after == before.insert(game_id, after[game_id])
                &&& after[game_id].participants == before[game_id].participants
                &&& deliveries_view(deliveries@) == published(
                    in_order,
                    own_state_report(game_id, player, after[game_id]),
                    PublishParamsView { player_name: Some(player), game_id: None },
                )
            },
        }
    }
}

/// Serves a message from the connection of the player under `token`: the
/// player's action is applied to the player's game, and the player's new
/// state is reported to the connections of the players of that name.
///
/// `NoPlayer` where no player is registered under `token` or the game does
/// not have the player, `NoGame` where the player is in no game or the game
/// is not stored. On an error no game is stored or changed.
pub fn serve_message<R: GameRules>(
    rules: &R,
    token: &Token,
    message: &ClientMessage,
    clients: &ClientRegistry,
    games: &mut GameStateStore,
) -> (served: Result<Vec<Delivery>, Error>)
    ensures
        served_as_message(
            token@,
            clients@,
            clients.in_order(),
            old(games)@,
            final(games)@,
            served,
        ),
        final(games).ids() == old(games).ids(),
{
    let client = match clients.lookup(token) {
        Some(client) => client,
        None => {
            return Err(Error::NoPlayer("no player is registered under this token".to_owned()));
        },
    };
    let game_id = match client.game_id {
        Some(game_id) => game_id,
        None => {
            return Err(Error::NoGame("player not in a game".to_owned()));
        },
    };
    let action = message.action();
    let state = match player_action(rules, &client.player_name, &game_id, &action, games) {
        Ok(state) => state,
        Err(e) => {
            return Err(e);
        },
    };
    let own = match state.player_state(&client.player_name) {
        Ok(own) => own.clone(),
        Err(e) => {
            return Err(e);
        },
    };
    let report = ServerMessage::StateUpdate {
        game_id: game_id.clone(),
        player_name: Some(client.player_name.clone()),
        player_state: Some(own),
    };
    Ok(publish_to_player(clients, &client.player_name, &report))
}

} // verus!
