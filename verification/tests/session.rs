use std::cell::Cell;

use ggezmulti::error::Error;
use ggezmulti::gamestate::GameState;
use ggezmulti::registry::ClientRegistry;
use ggezmulti::rules::{GameRules, NoOpRules};
use ggezmulti::session::{gametask, SessionActor, Ticked};
use ggezmulti::store::GameStateStore;
use ggezmulti::types::Action;

/// Rules under which a game ends at a given tick.
struct EndsAt {
    ticks_left: Cell<u32>,
    calls: Cell<u32>,
}

impl EndsAt {
    fn new(ticks: u32) -> Self {
        EndsAt { ticks_left: Cell::new(ticks), calls: Cell::new(0) }
    }
}

impl GameRules for EndsAt {
    fn apply(&self, _player: &String, _action: &Action, state: &GameState) -> GameState {
        state.clone()
    }

    fn tick(&self, state: &GameState) -> (GameState, bool) {
        self.calls.set(self.calls.get() + 1);
        let left = self.ticks_left.get();
        if left <= 1 {
            (state.clone(), true)
        } else {
            self.ticks_left.set(left - 1);
            (state.clone(), false)
        }
    }
}

fn setup() -> (ClientRegistry, GameStateStore) {
    let mut clients = ClientRegistry::new();
    clients.register_client("ta".to_string(), "alice".to_string());
    clients.register_client("tb".to_string(), "bob".to_string());
    clients.register_client("tc".to_string(), "carol".to_string());
    clients.attach_outbound(&"ta".to_string(), 1).unwrap();
    clients.attach_outbound(&"tb".to_string(), 2).unwrap();
    clients.attach_outbound(&"tc".to_string(), 3).unwrap();
    clients.assign_game(&"ta".to_string(), &"g1".to_string()).unwrap();
    clients.assign_game(&"tb".to_string(), &"g1".to_string()).unwrap();
    let mut games = GameStateStore::new();
    games.set("g1".to_string(), GameState::new(["alice".to_string(), "bob".to_string()]));
    (clients, games)
}

#[test]
fn a_new_session_is_not_retired() {
    let session = SessionActor::new("g1".to_string());
    assert_eq!(session.game_id(), "g1");
    assert!(!session.is_finished());
}

#[test]
fn a_tick_reports_the_state_to_the_players_of_the_game() {
    let (clients, mut games) = setup();
    let mut session = SessionActor::new("g1".to_string());
    match session.tick(&NoOpRules {}, &mut games, &clients) {
        Ticked::Continued(deliveries) => {
            let got: Vec<(u64, String)> =
                deliveries.iter().map(|d| (d.channel, d.payload.clone())).collect();
            assert_eq!(
                got,
                vec![
                    (1, r#"{"type":"StateUpdate","game_id":"g1"}"#.to_string()),
                    (2, r#"{"type":"StateUpdate","game_id":"g1"}"#.to_string()),
                ]
            );
        }
        other => panic!("unexpected: {:?}", other),
    }
    assert!(!session.is_finished());
    assert!(games.contains(&"g1".to_string()));
}

#[test]
fn a_game_that_never_ends_keeps_ticking() {
    let (clients, mut games) = setup();
    let mut session = SessionActor::new("g1".to_string());
    for _ in 0..50 {
        assert!(matches!(session.tick(&NoOpRules {}, &mut games, &clients), Ticked::Continued(_)));
    }
    assert_eq!(games.len(), 1);
}

#[test]
fn game_over_removes_the_game_once_and_stops_the_ticks() {
    let (clients, mut games) = setup();
    let rules = EndsAt::new(3);
    let mut session = SessionActor::new("g1".to_string());
    assert!(matches!(session.tick(&rules, &mut games, &clients), Ticked::Continued(_)));
    assert!(matches!(session.tick(&rules, &mut games, &clients), Ticked::Continued(_)));
    match session.tick(&rules, &mut games, &clients) {
        Ticked::Finished(deliveries) => {
            let got: Vec<(u64, String)> =
                deliveries.iter().map(|d| (d.channel, d.payload.clone())).collect();
            assert_eq!(
                got,
                vec![
                    (1, r#"{"type":"StateUpdate","game_id":"g1"}"#.to_string()),
                    (2, r#"{"type":"StateUpdate","game_id":"g1"}"#.to_string()),
                    (1, r#"{"type":"GameOver","game_id":"g1"}"#.to_string()),
                    (2, r#"{"type":"GameOver","game_id":"g1"}"#.to_string()),
                ]
            );
        }
        other => panic!("unexpected: {:?}", other),
    }
    assert!(session.is_finished());
    assert!(!games.contains(&"g1".to_string()));
    assert_eq!(rules.calls.get(), 3);

    // a game stored under the same identifier later is not touched by the retired session
    games.set("g1".to_string(), GameState::new(["carol".to_string(), "dave".to_string()]));
    assert!(matches!(session.tick(&rules, &mut games, &clients), Ticked::Stopped));
    assert!(matches!(session.tick(&rules, &mut games, &clients), Ticked::Stopped));
    assert_eq!(rules.calls.get(), 3);
    assert!(games.contains(&"g1".to_string()));
    assert_eq!(
        games.get(&"g1".to_string()).unwrap().participants(),
        &vec!["carol".to_string(), "dave".to_string()]
    );
}

#[test]
fn a_session_whose_game_is_gone_retires_with_no_game() {
    let (clients, mut games) = setup();
    games.remove(&"g1".to_string());
    let rules = EndsAt::new(5);
    let mut session = SessionActor::new("g1".to_string());
    match session.tick(&rules, &mut games, &clients) {
        Ticked::Failed(Error::NoGame(detail)) => assert_eq!(detail, "no such game"),
        other => panic!("unexpected: {:?}", other),
    }
    assert!(session.is_finished());
    assert_eq!(rules.calls.get(), 0);
    assert!(matches!(session.tick(&rules, &mut games, &clients), Ticked::Stopped));
    assert_eq!(games.len(), 0);
}

#[test]
fn conclude_stores_what_the_rules_gave() {
    let (clients, mut games) = setup();
    let mut session = SessionActor::new("g1".to_string());
    let next = GameState::new(["alice".to_string(), "bob".to_string()]);
    assert!(matches!(session.conclude(next, false, &mut games, &clients), Ticked::Continued(_)));
    assert!(games.contains(&"g1".to_string()));
    let last = GameState::new(["alice".to_string(), "bob".to_string()]);
    assert!(matches!(session.conclude(last, true, &mut games, &clients), Ticked::Finished(_)));
    assert!(!games.contains(&"g1".to_string()));
    let more = GameState::new(["alice".to_string(), "bob".to_string()]);
    assert!(matches!(session.conclude(more, false, &mut games, &clients), Ticked::Stopped));
    assert_eq!(games.len(), 0);
}

#[test]
fn a_tick_of_one_game_leaves_the_others_alone() {
    let (clients, mut games) = setup();
    games.set("g2".to_string(), GameState::new(["carol".to_string(), "dave".to_string()]));
    let mut session = SessionActor::new("g1".to_string());
    assert!(matches!(session.tick(&EndsAt::new(1), &mut games, &clients), Ticked::Finished(_)));
    assert!(games.contains(&"g2".to_string()));
    assert_eq!(games.len(), 1);
}

#[test]
fn gametask_runs_one_round_of_the_game() {
    let (clients, mut games) = setup();
    let rules = EndsAt::new(2);
    let mut session = SessionActor::new("g1".to_string());
    assert!(matches!(gametask(&mut session, &rules, &mut games, &clients), Ticked::Continued(_)));
    assert!(matches!(gametask(&mut session, &rules, &mut games, &clients), Ticked::Finished(_)));
    assert!(matches!(gametask(&mut session, &rules, &mut games, &clients), Ticked::Stopped));
    assert!(!games.contains(&"g1".to_string()));
}

/// Rules that hand back a game of other players.
struct Impostor;

impl GameRules for Impostor {
    fn apply(&self, _player: &String, _action: &Action, _state: &GameState) -> GameState {
        GameState::new(["mallory".to_string(), "trent".to_string()])
    }

    fn tick(&self, _state: &GameState) -> (GameState, bool) {
        (GameState::new(["mallory".to_string(), "trent".to_string()]), false)
    }
}

#[test]
fn the_rules_cannot_change_who_plays() {
    let (clients, mut games) = setup();
    let mut session = SessionActor::new("g1".to_string());
    assert!(matches!(session.tick(&Impostor, &mut games, &clients), Ticked::Continued(_)));
    assert_eq!(
        games.get(&"g1".to_string()).unwrap().participants(),
        &vec!["alice".to_string(), "bob".to_string()]
    );
    let state = ggezmulti::actions::player_action(
        &Impostor,
        &"alice".to_string(),
        &"g1".to_string(),
        &Action::MyAction,
        &mut games,
    )
    .unwrap();
    assert_eq!(state.participants(), &vec!["alice".to_string(), "bob".to_string()]);
    assert_eq!(
        games.get(&"g1".to_string()).unwrap().participants(),
        &vec!["alice".to_string(), "bob".to_string()]
    );
}
