//! Pairing the players that wait.
//!
//! Once per poll the two players who have waited longest are paired: a game
//! is stored for them under a fresh identifier, both are marked as its
//! players, and each is told the other's name.

use vstd::prelude::*;
use crate::gamestate::{initial_game, GameState, GameStateView};
use crate::ids::{is_random_id, random_id};
use crate::keys::{first_unused, lemma_without, without};
use crate::messages::{ServerMessage, ServerMessageView};
use crate::queue::{enqueued, MatchmakingQueue};
use crate::registry::{in_order_of, waiting, ClientRegistry, ClientView};
use crate::relay::{
    deliveries_view, lemma_publish_by_name, publish_to_player, published, Delivery, DeliveryView,
    PublishParamsView,
};
use crate::session::{SessionActor, SessionActorView};
use crate::store::GameStateStore;
use crate::types::{ChannelId, GameId, PlayerName};
use crate::wire::server_message_json;

verus! {

/// Two players that were paired.
#[derive(Debug)]
pub struct Pairing {
    /// The identifier of their game.
    pub game_id: GameId,
    /// The session of their game, not yet retired. It is the only one the
    /// game ever gets; whoever runs the broker ticks it.
    pub session: SessionActor,
    /// The player who waited longest.
    pub first: PlayerName,
    /// The player who waited second longest.
    pub second: PlayerName,
    /// The notices of the match, to be put into the connections' channels.
    pub deliveries: Vec<Delivery>,
}

/// What one poll of the queue did.
#[derive(Debug)]
pub enum Polled {
    /// Fewer than two players waited; nothing changed.
    Idle,
    /// One of the two oldest tokens was not that of a registered player
    /// without a game. Nobody was paired; of the two, those who do wait are
    /// the oldest in the queue again.
    Aborted,
    /// The two oldest players were paired.
    Matched(Pairing),
}

/// The queue after a poll that paired nobody: without those of its two
/// oldest tokens that are not waiting players'.
pub open spec fn after_abort(queue: Seq<Seq<char>>, clients: Map<Seq<char>, ClientView>) -> Seq<
    Seq<char>,
>
    recommends
        queue.len() >= 2,
{
    let first = if waiting(clients, queue[0]) {
        seq![queue[0]]
    } else {
        Seq::empty()
    };
    let second = if waiting(clients, queue[1]) {
        seq![queue[1]]
    } else {
        Seq::empty()
    };
    first + second + queue.skip(2)
}

/// The registry after the players under `first` and `second` were made
/// players of `game_id`.
pub open spec fn after_match(
    clients: Map<Seq<char>, ClientView>,
    first: Seq<char>,
    second: Seq<char>,
    game_id: Seq<char>,
) -> Map<Seq<char>, ClientView> {
    clients.insert(first, clients[first].matched(game_id)).insert(
        second,
        clients[second].matched(game_id),
    )
}

/// The notices of a match between the players named `first` and `second`:
/// to every connection of a player named `first` that the opponent is
/// `second`, then to every connection of a player named `second` that the
/// opponent is `first`.
pub open spec fn match_notices(clients: Seq<ClientView>, first: Seq<char>, second: Seq<char>) -> Seq<
    DeliveryView,
> {
    published(
        clients,
        ServerMessageView::MatchFound(second),
        PublishParamsView { player_name: Some(first), game_id: None },
    ) + published(
        clients,
        ServerMessageView::MatchFound(first),
        PublishParamsView { player_name: Some(second), game_id: None },
    )
}

/// No token in the queue is that of a player who already has a game.
pub open spec fn queue_consistent(queue: Seq<Seq<char>>, clients: Map<Seq<char>, ClientView>) -> bool {
    forall|i: int|
        0 <= i < queue.len() && clients.contains_key(#[trigger] queue[i])
            ==> clients[queue[i]].game_id.is_none()
}

/// Two distinct registered players without a game who have connections and
/// are paired end up in the same game, and each is sent the name of the
/// other on the player's own connection.
pub proof fn lemma_paired_players_meet(
    tokens: Seq<Seq<char>>,
    clients: Map<Seq<char>, ClientView>,
    first: Seq<char>,
    second: Seq<char>,
    game_id: Seq<char>,
)
    requires
        tokens.no_duplicates(),
        forall|token: Seq<char>| clients.contains_key(token) <==> tokens.contains(token),
        first != second,
        waiting(clients, first),
        waiting(clients, second),
        clients[first].sender.is_some(),
        clients[second].sender.is_some(),
    ensures
        after_match(clients, first, second, game_id)[first].game_id == Some(game_id),
        after_match(clients, first, second, game_id)[second].game_id == Some(game_id),
        match_notices(
            in_order_of(tokens, after_match(clients, first, second, game_id)),
            clients[first].player_name,
            clients[second].player_name,
        ).contains(
            DeliveryView {
                channel: clients[first].sender.unwrap(),
                payload: server_message_json(
                    ServerMessageView::MatchFound(clients[second].player_name),
                ),
            },
        ),
        match_notices(
            in_order_of(tokens, after_match(clients, first, second, game_id)),
            clients[first].player_name,
            clients[second].player_name,
        ).contains(
            DeliveryView {
                channel: clients[second].sender.unwrap(),
                payload: server_message_json(
                    ServerMessageView::MatchFound(clients[first].player_name),
                ),
            },
        ),
{
    let after = after_match(clients, first, second, game_id);
    let players = in_order_of(tokens, after);
    let first_name = clients[first].player_name;
    let second_name = clients[second].player_name;
    let to_first = published(
        players,
        ServerMessageView::MatchFound(second_name),
        PublishParamsView { player_name: Some(first_name), game_id: None },
    );
    let to_second = published(
        players,
        ServerMessageView::MatchFound(first_name),
        PublishParamsView { player_name: Some(second_name), game_id: None },
    );
    assert(tokens.contains(first) && tokens.contains(second));
    let i = tokens.index_of(first);
    let j = tokens.index_of(second);
    assert(players[i] == after[first]);
    assert(players[j] == after[second]);
    lemma_publish_by_name(players, ServerMessageView::MatchFound(second_name), first_name, None);
    lemma_publish_by_name(players, ServerMessageView::MatchFound(first_name), second_name, None);
    let for_first = DeliveryView {
        channel: clients[first].sender.unwrap(),
        payload: server_message_json(ServerMessageView::MatchFound(second_name)),
    };
    let for_second = DeliveryView {
        channel: clients[second].sender.unwrap(),
        payload: server_message_json(ServerMessageView::MatchFound(first_name)),
    };
    assert(to_first.contains(for_first));
    assert(to_second.contains(for_second));
    let a = to_first.index_of(for_first);
    let b = to_second.index_of(for_second);
    assert((to_first + to_second)[a] == for_first);
    assert((to_first + to_second)[to_first.len() + b] == for_second);
}

/// A poll leaves no player with a game in the queue if there was none
/// among those it did not take.
pub proof fn lemma_poll_keeps_queue_consistent(
    queue: Seq<Seq<char>>,
    clients: Map<Seq<char>, ClientView>,
    game_id: Seq<char>,
)
    requires
        queue.no_duplicates(),
        queue.len() >= 2,
        queue_consistent(queue.skip(2), clients),
    ensures
        queue_consistent(after_abort(queue, clients), clients),
        queue_consistent(queue.skip(2), after_match(clients, queue[0], queue[1], game_id)),
{
    let rest = queue.skip(2);
    let kept = after_abort(queue, clients);
    assert forall|i: int| 0 <= i < kept.len() && clients.contains_key(#[trigger] kept[i])
        implies clients[kept[i]].game_id.is_none() by {
        let ahead = kept.len() - rest.len();
        if i >= ahead {
            assert(kept[i] == rest[i - ahead]);
        }
    }
    let after = after_match(clients, queue[0], queue[1], game_id);
    assert forall|i: int| 0 <= i < rest.len() && after.contains_key(#[trigger] rest[i])
        implies after[rest[i]].game_id.is_none() by {
        assert(rest[i] == queue[i + 2]);
    }
}

/// Registering a player, opening a connection and ending one leave no
/// player with a game in the queue either.
pub proof fn lemma_connections_keep_queue_consistent(
    queue: Seq<Seq<char>>,
    clients: Map<Seq<char>, ClientView>,
    token: Seq<char>,
    player_name: Seq<char>,
    channel: ChannelId,
)
    requires
        queue.no_duplicates(),
        queue_consistent(queue, clients),
    ensures
        queue_consistent(queue, clients.insert(token, ClientView::registered(player_name))),
        clients.contains_key(token) ==> queue_consistent(
            if waiting(clients, token) {
                enqueued(queue, token)
            } else {
                queue
            },
            clients.insert(token, clients[token].attached(channel)),
        ),
        queue_consistent(without(queue, token), clients.remove(token)),
{
    lemma_without(queue, token);
    let left = without(queue, token);
    assert forall|i: int| 0 <= i < left.len() && clients.remove(token).contains_key(
        #[trigger] left[i],
    ) implies clients.remove(token)[left[i]].game_id.is_none() by {
        assert(left.contains(left[i]));
        let j = queue.index_of(left[i]);
        assert(queue[j] == left[i]);
    }
}

/// What one poll comes to, with `candidate` as the identifier for a new
/// game: nothing where fewer than two players wait; a pairing of the two
/// oldest where both are registered players without a game; and else an
/// abort, which changes the queue alone.
pub open spec fn polled_as(
    queue_before: Seq<Seq<char>>,
    queue_after: Seq<Seq<char>>,
    clients_before: Map<Seq<char>, ClientView>,
    clients_after: Map<Seq<char>, ClientView>,
    games_before: Map<Seq<char>, GameStateView>,
    games_after: Map<Seq<char>, GameStateView>,
    in_order_after: Seq<ClientView>,
    candidate: Seq<char>,
    polled: Polled,
) -> bool {
    if queue_before.len() < 2 {
        &&& polled is Idle
        &&& queue_after == queue_before
        &&& clients_after == clients_before
        &&& games_after == games_before
    } else if waiting(clients_before, queue_before[0]) && waiting(clients_before, queue_before[1]) {
        &&& polled matches Polled::Matched(pairing)
        &&& first_unused(games_before.dom(), candidate, pairing.game_id@)
        &&& !games_before.contains_key(pairing.game_id@)
        &&& pairing.session@ == (SessionActorView { game_id: pairing.game_id@, finished: false })
        &&& pairing.first@ == clients_before[queue_before[0]].player_name
        &&& pairing.second@ == clients_before[queue_before[1]].player_name
        &&& queue_after == queue_before.skip(2)
        &&& games_after == games_before.insert(
            pairing.game_id@,
            initial_game(pairing.first@, pairing.second@),
        )
        &&& clients_after == after_match(
            clients_before,
            queue_before[0],
            queue_before[1],
            pairing.game_id@,
        )
        &&& deliveries_view(pairing.deliveries@) == match_notices(
            in_order_after,
            pairing.first@,
            pairing.second@,
        )
    } else {
        &&& polled is Aborted
        &&& queue_after == after_abort(queue_before, clients_before)
        &&& clients_after == clients_before
        &&& games_after == games_before
    }
}

/// Polls the queue once, with `candidate` as the identifier for a new game.
///
/// Where fewer than two players wait, nothing happens. Else the two oldest
/// tokens leave the queue. If both are tokens of registered players without
/// a game, a game between the two is stored under an identifier made from
/// `candidate` that no stored game has, both players become players of that
/// game, and each is sent the other's name. If not, nothing but the queue
/// changes: those of the two who do wait are put back as its oldest.
pub fn pair_with(
    queue: &mut MatchmakingQueue,
    clients: &mut ClientRegistry,
    games: &mut GameStateStore,
    candidate: GameId,
) -> (polled: Polled)
    ensures
        polled_as(
            old(queue)@,
            final(queue)@,
            old(clients)@,
            final(clients)@,
            old(games)@,
            final(games)@,
            final(clients).in_order(),
            candidate@,
            polled,
        ),
        final(clients).tokens() == old(clients).tokens(),
{
    let ghost waiters = queue@;
    proof {
        use_type_invariant(&*queue);
        queue.lemma_inv();
    }
    let (first_token, second_token) = match queue.pop_pair() {
        Some(pair) => pair,
        None => {
            return Polled::Idle;
        },
    };
    let ghost rest = waiters.skip(2);
    proof {
        assert forall|i: int| 0 <= i < rest.len() implies rest[i] != waiters[0] && rest[i]
            != waiters[1] by {
            assert(rest[i] == waiters[i + 2]);
        }
        assert(!rest.contains(waiters[0]));
        assert(!rest.contains(waiters[1]));
        assert(waiters[0] != waiters[1]);
    }
    let first_name = match clients.lookup(&first_token) {
        Some(client) => if client.game_id.is_none() {
            Some(client.player_name)
        } else {
            None
        },
        None => None,
    };
    let second_name = match clients.lookup(&second_token) {
        Some(client) => if client.game_id.is_none() {
            Some(client.player_name)
        } else {
            None
        },
        None => None,
    };
    match (first_name, second_name) {
        (Some(first), Some(second)) => {
            let game_id = games.unused_id(candidate);
            games.set(game_id.clone(), GameState::new([first.clone(), second.clone()]));
            let _ = clients.assign_game(&first_token, &game_id);
            let _ = clients.assign_game(&second_token, &game_id);
            let mut deliveries = publish_to_player(
                clients,
                &first,
                &ServerMessage::MatchFound(second.clone()),
            );
            let mut more = publish_to_player(
                clients,
                &second,
                &ServerMessage::MatchFound(first.clone()),
            );
            let ghost head = deliveries@;
            let ghost tail = more@;
            deliveries.append(&mut more);
            proof {
                assert(deliveries_view(deliveries@) =~= deliveries_view(head) + deliveries_view(
                    tail,
                ));
            }
            let session = SessionActor::new(game_id.clone());
            Polled::Matched(Pairing { game_id, session, first, second, deliveries })
        },
        (first_name, second_name) => {
            if second_name.is_some() {
                queue.requeue_front(second_token);
            }
            if first_name.is_some() {
                queue.requeue_front(first_token);
            }
            proof {
                assert(queue@ =~= after_abort(waiters, clients@));
            }
            Polled::Aborted
        },
    }
}

/// Polls the queue once; a new game gets a fresh random identifier.
pub fn pair(queue: &mut MatchmakingQueue, clients: &mut ClientRegistry, games: &mut GameStateStore) -> (polled:
    Polled)
    ensures
        exists|candidate: Seq<char>| #[trigger]
            is_random_id(candidate) && polled_as(
                old(queue)@,
                final(queue)@,
                old(clients)@,
                final(clients)@,
                old(games)@,
                final(games)@,
                final(clients).in_order(),
                candidate,
                polled,
            ),
        final(clients).tokens() == old(clients).tokens(),
{
    let candidate = random_id();
    pair_with(queue, clients, games, candidate)
}

} // verus!
