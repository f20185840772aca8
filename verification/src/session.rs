//! The ticking of one game.
//!
//! Every running game has one session. Once per tick the session reads the
//! game's state, lets the rules advance it, stores the result and reports it
//! to the players in the game. When the rules say that the game is over, the
//! session takes the game out of the store, tells the players, and retires:
//! it never touches the store again.

use vstd::prelude::*;
use crate::error::{Error, ErrorView};
use crate::gamestate::{GameState, GameStateView};
use crate::messages::{ServerMessage, ServerMessageView};
use crate::registry::{ClientRegistry, ClientView};
use crate::relay::{deliveries_view, publish_to_game, published, Delivery, DeliveryView, PublishParamsView};
use crate::rules::GameRules;
use crate::store::GameStateStore;
use crate::types::GameId;

verus! {

/// The session of one game.
#[derive(Debug)]
pub struct SessionActor {
    game_id: GameId,
    finished: bool,
}

/// A `SessionActor` as contracts see it.
pub struct SessionActorView {
    pub game_id: Seq<char>,
    /// Whether the session has retired.
    pub finished: bool,
}

impl View for SessionActor {
    type V = SessionActorView;

    closed spec fn view(&self) -> SessionActorView {
        SessionActorView { game_id: self.game_id@, finished: self.finished }
    }
}

/// What one tick did.
#[derive(Debug)]
pub enum Ticked {
    /// The game goes on. The deliveries report the new state.
    Continued(Vec<Delivery>),
    /// The game is over and no longer stored; the session has retired. The
    /// deliveries report the last state and then the end of the game.
    Finished(Vec<Delivery>),
    /// The session had retired before; nothing was done.
    Stopped,
    /// The game was not in the store; the session has retired.
    Failed(Error),
}

/// What one tick did, without what it carries.
pub enum TickKind {
    Continued,
    Finished,
    Stopped,
    Failed,
}

impl Ticked {
    /// Which of the four it is.
    pub open spec fn kind(self) -> TickKind {
        match self {
            Ticked::Continued(_) => TickKind::Continued,
            Ticked::Finished(_) => TickKind::Finished,
            Ticked::Stopped => TickKind::Stopped,
            Ticked::Failed(_) => TickKind::Failed,
        }
    }

    /// The deliveries it carries.
    pub open spec fn deliveries(self) -> Seq<DeliveryView> {
        match self {
            Ticked::Continued(deliveries) => deliveries_view(deliveries@),
            Ticked::Finished(deliveries) => deliveries_view(deliveries@),
            Ticked::Stopped => Seq::empty(),
            Ticked::Failed(_) => Seq::empty(),
        }
    }
}

/// The session, the store and the kind of outcome after a tick in which the
/// rules gave `answer` as the new state and `over` as their verdict.
pub struct TickStep {
    pub finished: bool,
    pub games: Map<Seq<char>, GameStateView>,
    pub kind: TickKind,
}

/// One tick, given what the rules answered. A retired session does nothing.
/// A session whose game is gone retires. Else the game is over and leaves
/// the store, or goes on with the states that the rules gave for its
/// players.
pub open spec fn tick_step(
    session: SessionActorView,
    games: Map<Seq<char>, GameStateView>,
    answer: GameStateView,
    over: bool,
) -> TickStep {
    if session.finished {
        TickStep { finished: true, games, kind: TickKind::Stopped }
    } else if !games.contains_key(session.game_id) {
        TickStep { finished: true, games, kind: TickKind::Failed }
    } else if over {
        TickStep { finished: true, games: games.remove(session.game_id), kind: TickKind::Finished }
    } else {
        TickStep {
            finished: false,
            games: games.insert(session.game_id, games[session.game_id].adopting(answer)),
            kind: TickKind::Continued,
        }
    }
}

/// The report of a tick to everyone in the game.
pub open spec fn tick_report(clients: Seq<ClientView>, game_id: Seq<char>) -> Seq<DeliveryView> {
    published(
        clients,
        ServerMessageView::StateUpdate { game_id, player_name: None, player_state: None },
        PublishParamsView { player_name: None, game_id: Some(game_id) },
    )
}

/// The notice to everyone in the game that it has ended.
pub open spec fn end_notice(clients: Seq<ClientView>, game_id: Seq<char>) -> Seq<DeliveryView> {
    published(
        clients,
        ServerMessageView::GameOver { game_id },
        PublishParamsView { player_name: None, game_id: Some(game_id) },
    )
}

/// What a tick of the given kind delivers.
pub open spec fn tick_deliveries(kind: TickKind, clients: Seq<ClientView>, game_id: Seq<char>) -> Seq<
    DeliveryView,
> {
    match kind {
        TickKind::Continued => tick_report(clients, game_id),
        TickKind::Finished => tick_report(clients, game_id) + end_notice(clients, game_id),
        TickKind::Stopped => Seq::empty(),
        TickKind::Failed => Seq::empty(),
    }
}

/// A tick in which the rules say that the game is over takes the game out
/// of the store and retires the session; whatever the rules would answer
/// afterwards, no later tick of the session changes the store again.
pub proof fn lemma_game_over_is_final(
    session: SessionActorView,
    games: Map<Seq<char>, GameStateView>,
    last: GameStateView,
    later: GameStateView,
    later_over: bool,
)
    requires
        !session.finished,
        games.contains_key(session.game_id),
    ensures
        tick_step(session, games, last, true).kind == TickKind::Finished,
        tick_step(session, games, last, true).finished,
        tick_step(session, games, last, true).games == games.remove(session.game_id),
        !tick_step(session, games, last, true).games.contains_key(session.game_id),
        ({
            let ended = tick_step(session, games, last, true);
            let retired = SessionActorView { game_id: session.game_id, finished: ended.finished };
            let again = tick_step(retired, ended.games, later, later_over);
            &&& again.kind == TickKind::Stopped
            &&& again.finished
            &&& again.games == ended.games
        }),
{
}

/// What one tick comes to where the rules are asked: it is the tick that
/// `tick_step` describes for some answer of the rules. What is delivered
/// goes by the kind of the tick.
pub open spec fn ticked_by_rules(
    before: SessionActorView,
    after: SessionActorView,
    games_before: Map<Seq<char>, GameStateView>,
    games_after: Map<Seq<char>, GameStateView>,
    clients: Seq<ClientView>,
    ticked: Ticked,
) -> bool {
    &&& after.game_id == before.game_id
    &&& ticked.deliveries() == tick_deliveries(ticked.kind(), clients, before.game_id)
    &&& ticked matches Ticked::Failed(e) ==> e@ == ErrorView::NoGame("no such game"@)
    &&& exists|answer: GameStateView, over: bool| #[trigger]
        tick_step(before, games_before, answer, over) == (TickStep {
            finished: after.finished,
            games: games_after,
            kind: ticked.kind(),
        })
}

impl SessionActor {
    /// The session for the game `game_id`, not yet retired.
    pub fn new(game_id: GameId) -> (session: Self)
        ensures
            session@ == (SessionActorView { game_id: game_id@, finished: false }),
    {
        SessionActor { game_id, finished: false }
    }

    /// The identifier of the session's game.
    pub fn game_id(&self) -> (game_id: &GameId)
        ensures
            game_id@ == self@.game_id,
    {
        &self.game_id
    }

    /// Whether the session has retired.
    pub fn is_finished(&self) -> (finished: bool)
        ensures
            finished == self@.finished,
    {
        self.finished
    }

    /// The part of a tick that follows the rules' answer: `answer` is the
    /// state they gave and `over` their verdict.
    pub fn conclude(
        &mut self,
        answer: GameState,
        over: bool,
        games: &mut GameStateStore,
        clients: &ClientRegistry,
    ) -> (ticked: Ticked)
        ensures
            final(self)@.game_id == old(self)@.game_id,
            final(self)@.finished == tick_step(old(self)@, old(games)@, answer@, over).finished,
            final(games)@ == tick_step(old(self)@, old(games)@, answer@, over).games,
            ticked.kind() == tick_step(old(self)@, old(games)@, answer@, over).kind,
            ticked.deliveries() == tick_deliveries(
                ticked.kind(),
                clients.in_order(),
                old(self)@.game_id,
            ),
            ticked matches Ticked::Failed(e) ==> e@ == ErrorView::NoGame("no such game"@),
    {
        if self.finished {
            return Ticked::Stopped;
        }
        let state = match games.get(&self.game_id) {
            Some(state) => state,
            None => {
                self.finished = true;
                return Ticked::Failed(Error::NoGame("no such game".to_owned()));
            },
        };
        let report = ServerMessage::StateUpdate {
            game_id: self.game_id.clone(),
            player_name: None,
            player_state: None,
        };
        let mut deliveries = publish_to_game(clients, &self.game_id, &report);
        if over {
            let _ = games.remove(&self.game_id);
            self.finished = true;
            let notice = ServerMessage::GameOver { game_id: self.game_id.clone() };
            let mut more = publish_to_game(clients, &self.game_id, &notice);
            let ghost head = deliveries@;
            let ghost tail = more@;
            deliveries.append(&mut more);
            proof {
                assert(deliveries_view(deliveries@) =~= deliveries_view(head) + deliveries_view(
                    tail,
                ));
            }
            Ticked::Finished(deliveries)
        } else {
            games.set(self.game_id.clone(), state.adopt(&answer));
            Ticked::Continued(deliveries)
        }
    }

    /// One tick: unless the session has retired or its game is gone, the
    /// rules advance the game by one tick, and the tick is concluded with
    /// what they answer.
    pub fn tick<R: GameRules>(
        &mut self,
        rules: &R,
        games: &mut GameStateStore,
        clients: &ClientRegistry,
    ) -> (ticked: Ticked)
        ensures
            ticked_by_rules(
                old(self)@,
                final(self)@,
                old(games)@,
                final(games)@,
                clients.in_order(),
                ticked,
            ),
    {
        let ghost before = self@;
        let ghost stored = games@;
        if self.finished {
            proof {
                let same = stored[before.game_id];
                assert(tick_step(before, stored, same, false).kind == TickKind::Stopped);
            }
            return Ticked::Stopped;
        }
        let state = match games.get(&self.game_id) {
            Some(state) => state,
            None => {
                self.finished = true;
                proof {
                    let any = stored[before.game_id];
                    assert(tick_step(before, stored, any, false).kind == TickKind::Failed);
                }
                return Ticked::Failed(Error::NoGame("no such game".to_owned()));
            },
        };
        let (next, over) = rules.tick(&state);
        let ghost answer = next@;
        let ticked = self.conclude(next, over, games, clients);
        proof {
            assert(tick_step(before, stored, answer, over) == (TickStep {
                finished: self@.finished,
                games: games@,
                kind: ticked.kind(),
            }));
        }
        ticked
    }
}

/// One round of the task that runs a game: the game's session ticks once.
/// The task ends when the tick is not `Continued`.
pub fn gametask<R: GameRules>(
    session: &mut SessionActor,
    rules: &R,
    games: &mut GameStateStore,
    clients: &ClientRegistry,
) -> (ticked: Ticked)
    ensures
        ticked_by_rules(
            old(session)@,
            final(session)@,
            old(games)@,
            final(games)@,
            clients.in_order(),
            ticked,
        ),
{
    session.tick(rules, games, clients)
}

} // verus!
