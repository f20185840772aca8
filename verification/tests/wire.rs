use ggezmulti::messages::{ClientMessage, ServerMessage};
use ggezmulti::types::PlayerState;
use ggezmulti::wire::{decode_client_text, encode_server_message, interpret, Inbound};

#[test]
fn match_found_is_written_as_a_tagged_object() {
    let text = encode_server_message(&ServerMessage::MatchFound("bob".to_string()));
    assert_eq!(text, r#"{"type":"MatchFound","opponent_name":"bob"}"#);
}

#[test]
fn names_are_escaped_as_json_strings() {
    let text = encode_server_message(&ServerMessage::MatchFound("a\"b\\c\n".to_string()));
    assert_eq!(text, r#"{"type":"MatchFound","opponent_name":"a\"b\\c\n"}"#);
    let value: serde_json::Value = serde_json::from_str(&text).unwrap();
    assert_eq!(value["opponent_name"].as_str(), Some("a\"b\\c\n"));
    assert_eq!(value["type"].as_str(), Some("MatchFound"));
}

#[test]
fn state_update_for_everyone_omits_player_and_state() {
    let text = encode_server_message(&ServerMessage::StateUpdate {
        game_id: "g1".to_string(),
        player_name: None,
        player_state: None,
    });
    assert_eq!(text, r#"{"type":"StateUpdate","game_id":"g1"}"#);
}

#[test]
fn state_update_for_one_player_carries_name_and_state() {
    let text = encode_server_message(&ServerMessage::StateUpdate {
        game_id: "g1".to_string(),
        player_name: Some("alice".to_string()),
        player_state: Some(PlayerState {}),
    });
    assert_eq!(
        text,
        r#"{"type":"StateUpdate","game_id":"g1","player_name":"alice","player_state":{}}"#
    );
    let value: serde_json::Value = serde_json::from_str(&text).unwrap();
    assert_eq!(value["game_id"].as_str(), Some("g1"));
    assert_eq!(value["player_name"].as_str(), Some("alice"));
    assert!(value["player_state"].is_object());
}

#[test]
fn state_update_with_state_but_no_name() {
    let text = encode_server_message(&ServerMessage::StateUpdate {
        game_id: "g1".to_string(),
        player_name: None,
        player_state: Some(PlayerState {}),
    });
    assert_eq!(text, r#"{"type":"StateUpdate","game_id":"g1","player_state":{}}"#);
}

#[test]
fn game_over_is_written_as_a_tagged_object() {
    let text = encode_server_message(&ServerMessage::GameOver { game_id: "g1".to_string() });
    assert_eq!(text, r#"{"type":"GameOver","game_id":"g1"}"#);
}

#[test]
fn pressed_a_is_read_from_a_tagged_object() {
    assert_eq!(
        decode_client_text(r#"{"type":"PressedA"}"#),
        Inbound::Message(ClientMessage::PressedA)
    );
    assert_eq!(
        decode_client_text("  { \"type\" : \"PressedA\" }\n"),
        Inbound::Message(ClientMessage::PressedA)
    );
}

#[test]
fn escapes_in_the_tag_are_read_by_the_json_reader() {
    assert_eq!(
        decode_client_text(r#"{"type":"PressedA"}"#),
        Inbound::Message(ClientMessage::PressedA)
    );
}

#[test]
fn other_string_members_do_not_matter() {
    assert_eq!(
        decode_client_text(r#"{"note":"hello","type":"PressedA"}"#),
        Inbound::Message(ClientMessage::PressedA)
    );
}

#[test]
fn ping_is_a_keepalive_bare_or_quoted() {
    assert_eq!(decode_client_text("ping"), Inbound::Ping);
    assert_eq!(decode_client_text("\"ping\""), Inbound::Ping);
}

#[test]
fn garbage_is_malformed() {
    assert_eq!(decode_client_text(""), Inbound::Malformed);
    assert_eq!(decode_client_text("PressedA"), Inbound::Malformed);
    assert_eq!(decode_client_text(r#""PressedA""#), Inbound::Malformed);
    assert_eq!(decode_client_text(r#"{"type":"Unknown"}"#), Inbound::Malformed);
    assert_eq!(decode_client_text(r#"{"kind":"PressedA"}"#), Inbound::Malformed);
    assert_eq!(decode_client_text(r#"{"type":1}"#), Inbound::Malformed);
    assert_eq!(decode_client_text(r#"{"type":"PressedA""#), Inbound::Malformed);
    assert_eq!(decode_client_text("[1,2,3]"), Inbound::Malformed);
    assert_eq!(decode_client_text("pong"), Inbound::Malformed);
}

#[test]
fn interpret_goes_by_the_member_named_type() {
    let members = vec![
        ("a".to_string(), "PressedA".to_string()),
        ("type".to_string(), "PressedA".to_string()),
    ];
    assert_eq!(interpret("x", Some(members)), Inbound::Message(ClientMessage::PressedA));
    let other = vec![("type".to_string(), "pressedA".to_string())];
    assert_eq!(interpret("x", Some(other)), Inbound::Malformed);
    assert_eq!(interpret("x", Some(Vec::new())), Inbound::Malformed);
    assert_eq!(interpret("x", None), Inbound::Malformed);
    assert_eq!(interpret("ping", None), Inbound::Ping);
}

#[test]
fn interpret_takes_the_first_member_named_type() {
    let members = vec![
        ("type".to_string(), "Nothing".to_string()),
        ("type".to_string(), "PressedA".to_string()),
    ];
    assert_eq!(interpret("x", Some(members)), Inbound::Malformed);
}

#[test]
fn pressed_a_stands_for_the_action() {
    assert_eq!(ClientMessage::PressedA.action(), ggezmulti::types::Action::MyAction);
}
