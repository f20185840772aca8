use ggezmulti::connection::{
    client_connection, register_handler, unregister_handler, ws_handler, ConnectionEvent,
    ConnectionHandler, ConnectionState, Frame, CONNECT_URL,
};
use ggezmulti::error::Error;
use ggezmulti::gamestate::GameState;
use ggezmulti::actions::{player_action, serve_message};
use ggezmulti::messages::{ClientMessage, RegisterRequest};
use ggezmulti::queue::MatchmakingQueue;
use ggezmulti::registry::ClientRegistry;
use ggezmulti::rules::NoOpRules;
use ggezmulti::store::GameStateStore;
use ggezmulti::types::Action;
use ggezmulti::wire::Inbound;

fn active(clients: &mut ClientRegistry, queue: &mut MatchmakingQueue, token: &str, name: &str, channel: u64) -> ConnectionHandler {
    let token = clients.register_client(token.to_string(), name.to_string());
    let mut handler = ConnectionHandler::new(token);
    handler.upgrade(clients, queue, channel).unwrap();
    handler
}

#[test]
fn register_handler_answers_with_the_connect_url() {
    let mut clients = ClientRegistry::new();
    let response = register_handler(RegisterRequest { player_name: "alice".to_string() }, &mut clients);
    assert_eq!(CONNECT_URL, "ws://127.0.0.1:8191/ws/");
    assert!(response.url.starts_with("ws://127.0.0.1:8191/ws/"));
    let token = response.url["ws://127.0.0.1:8191/ws/".len()..].to_string();
    assert_eq!(token.len(), 32);
    assert_eq!(clients.lookup(&token).unwrap().player_name, "alice");
    assert_eq!(clients.len(), 1);
}

#[test]
fn a_new_handler_is_upgrading() {
    let handler = ConnectionHandler::new("t".to_string());
    assert_eq!(handler.state(), ConnectionState::Upgrading);
    assert_eq!(handler.token(), "t");
}

#[test]
fn upgrade_attaches_the_channel_and_enqueues_the_player() {
    let mut clients = ClientRegistry::new();
    let mut queue = MatchmakingQueue::new();
    let handler = active(&mut clients, &mut queue, "ta", "alice", 5);
    assert_eq!(handler.state(), ConnectionState::Active);
    assert_eq!(clients.lookup(&"ta".to_string()).unwrap().sender, Some(5));
    assert!(queue.contains(&"ta".to_string()));
    assert_eq!(queue.len(), 1);
}

#[test]
fn upgrade_with_an_unknown_token_is_refused() {
    let mut clients = ClientRegistry::new();
    let mut queue = MatchmakingQueue::new();
    clients.register_client("ta".to_string(), "alice".to_string());
    let mut handler = ConnectionHandler::new("nobody".to_string());
    match handler.upgrade(&mut clients, &mut queue, 5) {
        Err(Error::NoPlayer(detail)) => assert_eq!(detail, "no player is registered under this token"),
        other => panic!("unexpected: {:?}", other),
    }
    assert_eq!(handler.state(), ConnectionState::Closed);
    assert_eq!(queue.len(), 0);
    assert_eq!(clients.len(), 1);
    assert_eq!(clients.lookup(&"ta".to_string()).unwrap().sender, None);
}

#[test]
fn upgrade_of_a_player_with_a_game_does_not_enqueue() {
    let mut clients = ClientRegistry::new();
    let mut queue = MatchmakingQueue::new();
    clients.register_client("ta".to_string(), "alice".to_string());
    clients.assign_game(&"ta".to_string(), &"g1".to_string()).unwrap();
    let mut handler = ConnectionHandler::new("ta".to_string());
    assert!(handler.upgrade(&mut clients, &mut queue, 5).is_ok());
    assert_eq!(handler.state(), ConnectionState::Active);
    assert_eq!(queue.len(), 0);
    assert_eq!(clients.lookup(&"ta".to_string()).unwrap().sender, Some(5));
}

#[test]
fn a_malformed_frame_neither_closes_the_connection_nor_changes_a_game() {
    let mut clients = ClientRegistry::new();
    let mut queue = MatchmakingQueue::new();
    let mut games = GameStateStore::new();
    games.set("g1".to_string(), GameState::new(["alice".to_string(), "bob".to_string()]));
    let mut handler = active(&mut clients, &mut queue, "ta", "alice", 5);
    for frame in [
        Frame::Other,
        Frame::Text("".to_string()),
        Frame::Text("garbage".to_string()),
        Frame::Text("{\"type\":\"Nope\"}".to_string()),
        Frame::Text("{\"type\":".to_string()),
    ] {
        match handler.on_frame(&NoOpRules {}, &frame, &clients, &mut games) {
            Err(Error::MalformedMessage(detail)) => assert_eq!(detail, "not a message from a player"),
            other => panic!("unexpected: {:?}", other),
        }
        assert_eq!(handler.state(), ConnectionState::Active);
        assert_eq!(games.len(), 1);
        assert!(games.contains(&"g1".to_string()));
    }
}

#[test]
fn a_ping_is_swallowed() {
    let mut clients = ClientRegistry::new();
    let mut queue = MatchmakingQueue::new();
    let mut games = GameStateStore::new();
    let mut handler = active(&mut clients, &mut queue, "ta", "alice", 5);
    let served = handler.on_frame(&NoOpRules {}, &Frame::Text("ping".to_string()), &clients, &mut games);
    assert!(served.unwrap().is_empty());
    let served = handler.on_inbound(&NoOpRules {}, Inbound::Ping, &clients, &mut games);
    assert!(served.unwrap().is_empty());
    assert_eq!(handler.state(), ConnectionState::Active);
    assert_eq!(games.len(), 0);
}

#[test]
fn an_action_of_an_unmatched_player_is_rejected_with_no_game() {
    let mut clients = ClientRegistry::new();
    let mut queue = MatchmakingQueue::new();
    let mut games = GameStateStore::new();
    let mut alice = active(&mut clients, &mut queue, "ta", "alice", 5);
    let frame = Frame::Text(r#"{"type":"PressedA"}"#.to_string());
    match alice.on_frame(&NoOpRules {}, &frame, &clients, &mut games) {
        Err(Error::NoGame(detail)) => assert_eq!(detail, "player not in a game"),
        other => panic!("unexpected: {:?}", other),
    }
    assert_eq!(games.len(), 0);
    assert_eq!(alice.state(), ConnectionState::Active);
    assert_eq!(clients.lookup(&"ta".to_string()).unwrap().game_id, None);
}

#[test]
fn an_action_of_a_matched_player_reports_the_players_state_back() {
    let mut clients = ClientRegistry::new();
    let mut queue = MatchmakingQueue::new();
    let mut games = GameStateStore::new();
    let mut alice = active(&mut clients, &mut queue, "ta", "alice", 5);
    let _bob = active(&mut clients, &mut queue, "tb", "bob", 6);
    clients.assign_game(&"ta".to_string(), &"g1".to_string()).unwrap();
    clients.assign_game(&"tb".to_string(), &"g1".to_string()).unwrap();
    games.set("g1".to_string(), GameState::new(["alice".to_string(), "bob".to_string()]));
    let frame = Frame::Text(r#"{"type":"PressedA"}"#.to_string());
    let deliveries = alice.on_frame(&NoOpRules {}, &frame, &clients, &mut games).unwrap();
    let got: Vec<(u64, String)> = deliveries.iter().map(|d| (d.channel, d.payload.clone())).collect();
    assert_eq!(
        got,
        vec![(
            5,
            r#"{"type":"StateUpdate","game_id":"g1","player_name":"alice","player_state":{}}"#.to_string()
        )]
    );
    assert_eq!(games.len(), 1);
    assert_eq!(
        games.get(&"g1".to_string()).unwrap().participants(),
        &vec!["alice".to_string(), "bob".to_string()]
    );
}

#[test]
fn an_action_for_a_game_that_is_gone_is_rejected_with_no_game() {
    let mut clients = ClientRegistry::new();
    let mut queue = MatchmakingQueue::new();
    let mut games = GameStateStore::new();
    let mut alice = active(&mut clients, &mut queue, "ta", "alice", 5);
    clients.assign_game(&"ta".to_string(), &"g1".to_string()).unwrap();
    match alice.on_inbound(&NoOpRules {}, Inbound::Message(ClientMessage::PressedA), &clients, &mut games) {
        Err(Error::NoGame(detail)) => assert_eq!(detail, "no such game"),
        other => panic!("unexpected: {:?}", other),
    }
    assert_eq!(games.len(), 0);
}

#[test]
fn an_action_of_a_player_the_game_does_not_have_is_rejected_with_no_player() {
    let mut clients = ClientRegistry::new();
    let mut queue = MatchmakingQueue::new();
    let mut games = GameStateStore::new();
    let mut alice = active(&mut clients, &mut queue, "ta", "alice", 5);
    clients.assign_game(&"ta".to_string(), &"g1".to_string()).unwrap();
    games.set("g1".to_string(), GameState::new(["carol".to_string(), "dave".to_string()]));
    match alice.on_inbound(&NoOpRules {}, Inbound::Message(ClientMessage::PressedA), &clients, &mut games) {
        Err(Error::NoPlayer(detail)) => assert_eq!(detail, "no such player in the game"),
        other => panic!("unexpected: {:?}", other),
    }
}

#[test]
fn serve_message_of_an_unknown_token_is_no_player() {
    let clients = ClientRegistry::new();
    let mut games = GameStateStore::new();
    match serve_message(&NoOpRules {}, &"nobody".to_string(), &ClientMessage::PressedA, &clients, &mut games) {
        Err(Error::NoPlayer(detail)) => assert_eq!(detail, "no player is registered under this token"),
        other => panic!("unexpected: {:?}", other),
    }
}

#[test]
fn player_action_stores_and_returns_the_new_state() {
    let mut games = GameStateStore::new();
    games.set("g1".to_string(), GameState::new(["alice".to_string(), "bob".to_string()]));
    let state = player_action(&NoOpRules {}, &"alice".to_string(), &"g1".to_string(), &Action::MyAction, &mut games).unwrap();
    assert_eq!(state.participants(), &vec!["alice".to_string(), "bob".to_string()]);
    assert!(matches!(
        player_action(&NoOpRules {}, &"alice".to_string(), &"g2".to_string(), &Action::MyAction, &mut games),
        Err(Error::NoGame(_))
    ));
    assert!(matches!(
        player_action(&NoOpRules {}, &"carol".to_string(), &"g1".to_string(), &Action::MyAction, &mut games),
        Err(Error::NoPlayer(_))
    ));
    assert_eq!(games.len(), 1);
}

#[test]
fn close_removes_the_player_from_registry_and_queue() {
    let mut clients = ClientRegistry::new();
    let mut queue = MatchmakingQueue::new();
    let mut alice = active(&mut clients, &mut queue, "ta", "alice", 5);
    let _bob = active(&mut clients, &mut queue, "tb", "bob", 6);
    alice.close(&mut clients, &mut queue);
    assert_eq!(alice.state(), ConnectionState::Closed);
    assert!(!clients.contains(&"ta".to_string()));
    assert!(!queue.contains(&"ta".to_string()));
    assert!(clients.contains(&"tb".to_string()));
    assert!(queue.contains(&"tb".to_string()));
}

#[test]
fn close_twice_cleans_up_once() {
    let mut clients = ClientRegistry::new();
    let mut queue = MatchmakingQueue::new();
    let mut alice = active(&mut clients, &mut queue, "ta", "alice", 5);
    alice.close(&mut clients, &mut queue);
    // the token is issued again to somebody else
    clients.register_client("ta".to_string(), "zoe".to_string());
    queue.enqueue("ta".to_string());
    alice.close(&mut clients, &mut queue);
    assert_eq!(alice.state(), ConnectionState::Closed);
    assert_eq!(clients.lookup(&"ta".to_string()).unwrap().player_name, "zoe");
    assert!(queue.contains(&"ta".to_string()));
}

#[test]
fn unregister_handler_removes_the_player_everywhere() {
    let mut clients = ClientRegistry::new();
    let mut queue = MatchmakingQueue::new();
    let _alice = active(&mut clients, &mut queue, "ta", "alice", 5);
    assert!(unregister_handler(&"ta".to_string(), &mut clients, &mut queue));
    assert!(!unregister_handler(&"ta".to_string(), &mut clients, &mut queue));
    assert_eq!(clients.len(), 0);
    assert_eq!(queue.len(), 0);
}

#[test]
fn ws_handler_answers_a_known_token_with_a_handler() {
    let mut clients = ClientRegistry::new();
    clients.register_client("ta".to_string(), "alice".to_string());
    let handler = ws_handler("ta".to_string(), &clients).unwrap();
    assert_eq!(handler.state(), ConnectionState::Upgrading);
    assert_eq!(handler.token(), "ta");
    match ws_handler("nobody".to_string(), &clients) {
        Err(Error::NoPlayer(detail)) => assert_eq!(detail, "no player is registered under this token"),
        other => panic!("unexpected: {:?}", other),
    }
}

#[test]
fn client_connection_walks_through_the_life_of_a_connection() {
    let mut clients = ClientRegistry::new();
    let mut queue = MatchmakingQueue::new();
    let mut games = GameStateStore::new();
    let rules = NoOpRules {};
    clients.register_client("ta".to_string(), "alice".to_string());
    let mut handler = ws_handler("ta".to_string(), &clients).unwrap();

    // a frame before the connection is open is dropped
    let early = ConnectionEvent::Received(Frame::Text("ping".to_string()));
    assert!(client_connection(&mut handler, &rules, early, &mut clients, &mut queue, &mut games).unwrap().is_empty());
    assert_eq!(handler.state(), ConnectionState::Upgrading);

    let opened = client_connection(&mut handler, &rules, ConnectionEvent::Upgraded(4), &mut clients, &mut queue, &mut games);
    assert!(opened.unwrap().is_empty());
    assert_eq!(handler.state(), ConnectionState::Active);
    assert_eq!(clients.lookup(&"ta".to_string()).unwrap().sender, Some(4));
    assert!(queue.contains(&"ta".to_string()));

    // a second upgrade is dropped
    let again = client_connection(&mut handler, &rules, ConnectionEvent::Upgraded(9), &mut clients, &mut queue, &mut games);
    assert!(again.unwrap().is_empty());
    assert_eq!(clients.lookup(&"ta".to_string()).unwrap().sender, Some(4));

    let garbage = ConnectionEvent::Received(Frame::Text("}{".to_string()));
    assert!(matches!(
        client_connection(&mut handler, &rules, garbage, &mut clients, &mut queue, &mut games),
        Err(Error::MalformedMessage(_))
    ));
    assert_eq!(handler.state(), ConnectionState::Active);

    let action = ConnectionEvent::Received(Frame::Text(r#"{"type":"PressedA"}"#.to_string()));
    assert!(matches!(
        client_connection(&mut handler, &rules, action, &mut clients, &mut queue, &mut games),
        Err(Error::NoGame(_))
    ));
    assert_eq!(games.len(), 0);

    let ended = client_connection(&mut handler, &rules, ConnectionEvent::Ended, &mut clients, &mut queue, &mut games);
    assert!(ended.unwrap().is_empty());
    assert_eq!(handler.state(), ConnectionState::Closed);
    assert_eq!(clients.len(), 0);
    assert_eq!(queue.len(), 0);

    // nothing happens on a closed connection
    let late = ConnectionEvent::Received(Frame::Text(r#"{"type":"PressedA"}"#.to_string()));
    assert!(client_connection(&mut handler, &rules, late, &mut clients, &mut queue, &mut games).unwrap().is_empty());
    let reopened = client_connection(&mut handler, &rules, ConnectionEvent::Upgraded(5), &mut clients, &mut queue, &mut games);
    assert!(reopened.unwrap().is_empty());
    assert_eq!(handler.state(), ConnectionState::Closed);
    assert_eq!(clients.len(), 0);
}

#[test]
fn client_connection_refuses_to_open_for_an_unknown_token() {
    let mut clients = ClientRegistry::new();
    let mut queue = MatchmakingQueue::new();
    let mut games = GameStateStore::new();
    let mut handler = ConnectionHandler::new("gone".to_string());
    let opened = client_connection(&mut handler, &NoOpRules {}, ConnectionEvent::Upgraded(4), &mut clients, &mut queue, &mut games);
    assert!(matches!(opened, Err(Error::NoPlayer(_))));
    assert_eq!(handler.state(), ConnectionState::Closed);
    assert_eq!(queue.len(), 0);
}
