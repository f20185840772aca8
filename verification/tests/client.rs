use ggezmulti::client::GameClient;
use ggezmulti::input::GameButton;
use ggezmulti::messages::{ClientMessage, ServerMessage};
use ggezmulti::types::PlayerState;

fn update(game_id: &str, player: Option<&str>, state: Option<PlayerState>) -> ServerMessage {
    ServerMessage::StateUpdate {
        game_id: game_id.to_string(),
        player_name: player.map(|p| p.to_string()),
        player_state: state,
    }
}

#[test]
fn a_new_client_knows_only_its_name() {
    let client = GameClient::new("alice".to_string());
    assert_eq!(client.player_name(), "alice");
    assert_eq!(client.player_state(), &PlayerState::default());
    assert_eq!(client.opponent(), &None);
    assert_eq!(client.game_id(), &None);
}

#[test]
fn match_found_names_the_opponent() {
    let mut client = GameClient::new("alice".to_string());
    client.handle_server_msg(ServerMessage::MatchFound("bob".to_string()));
    assert_eq!(client.opponent(), &Some("bob".to_string()));
    assert_eq!(client.game_id(), &None);
}

#[test]
fn a_state_update_tells_the_game() {
    let mut client = GameClient::new("alice".to_string());
    client.handle_server_msg(update("g1", None, None));
    assert_eq!(client.game_id(), &Some("g1".to_string()));
    let mut client = GameClient::new("alice".to_string());
    client.handle_server_msg(update("g2", Some("alice"), Some(PlayerState {})));
    assert_eq!(client.game_id(), &Some("g2".to_string()));
    assert_eq!(client.player_state(), &PlayerState {});
}

#[test]
fn a_state_update_for_another_player_is_ignored() {
    let mut client = GameClient::new("alice".to_string());
    client.handle_server_msg(update("g1", Some("bob"), Some(PlayerState {})));
    assert_eq!(client.game_id(), &None);
}

#[test]
fn the_end_of_the_players_game_clears_game_and_opponent() {
    let mut client = GameClient::new("alice".to_string());
    client.handle_server_msg(ServerMessage::MatchFound("bob".to_string()));
    client.handle_server_msg(update("g1", None, None));
    client.handle_server_msg(ServerMessage::GameOver { game_id: "other".to_string() });
    assert_eq!(client.game_id(), &Some("g1".to_string()));
    assert_eq!(client.opponent(), &Some("bob".to_string()));
    client.handle_server_msg(ServerMessage::GameOver { game_id: "g1".to_string() });
    assert_eq!(client.game_id(), &None);
    assert_eq!(client.opponent(), &None);
}

#[test]
fn update_takes_the_message_and_sends_the_button() {
    let mut client = GameClient::new("alice".to_string());
    let send = client.update(Some(ServerMessage::MatchFound("bob".to_string())), Some(GameButton::A));
    assert_eq!(send, Some(ClientMessage::PressedA));
    assert_eq!(client.opponent(), &Some("bob".to_string()));
    let send = client.update(None, None);
    assert_eq!(send, None);
    assert_eq!(client.opponent(), &Some("bob".to_string()));
}

#[test]
fn button_a_stands_for_pressed_a() {
    assert_eq!(GameButton::A.message(), ClientMessage::PressedA);
}
