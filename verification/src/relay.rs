//! The relay through which every message reaches the players' connections.
//!
//! The relay does not send anything itself. It decides which connections a
//! message is for and hands back one delivery per connection; whoever owns
//! the connections puts each delivery into its channel.

use vstd::prelude::*;
use crate::error::{Error, ErrorView};
use crate::messages::{ServerMessage, ServerMessageView};
use crate::registry::{Client, ClientRegistry, ClientView};
use crate::types::{clone_text, text_view, ChannelId, GameId, PlayerName};
use crate::wire::{encode_server_message, server_message_json};

verus! {

/// Whom a message is for. A criterion that is absent admits every player; a
/// player must meet both that are present.
#[derive(Debug)]
pub struct PublishParams {
    pub player_name: Option<PlayerName>,
    pub game_id: Option<GameId>,
}

/// `PublishParams` as contracts see them.
pub struct PublishParamsView {
    pub player_name: Option<Seq<char>>,
    pub game_id: Option<Seq<char>>,
}

impl View for PublishParams {
    type V = PublishParamsView;

    open spec fn view(&self) -> PublishParamsView {
        PublishParamsView {
            player_name: text_view(self.player_name),
            game_id: text_view(self.game_id),
        }
    }
}

impl Clone for PublishParams {
    fn clone(&self) -> (copy: Self)
        ensures
            copy@ == self@,
    {
        PublishParams {
            player_name: clone_text(&self.player_name),
            game_id: clone_text(&self.game_id),
        }
    }
}

impl PublishParamsView {
    /// Whether a message with these criteria is for `client`.
    pub open spec fn selects(self, client: ClientView) -> bool {
        &&& self.player_name matches Some(name) ==> client.player_name == name
        &&& self.game_id matches Some(game_id) ==> client.game_id == Some(game_id)
    }

    /// The channel on which `client` gets a message with these criteria:
    /// that of the connection, where the message is for the player and the
    /// player has a connection.
    pub open spec fn channel_of(self) -> spec_fn(ClientView) -> Option<ChannelId> {
        |client: ClientView|
            if self.selects(client) {
                client.sender
            } else {
                None
            }
    }

    /// The channels that get a message with these criteria, in the order in
    /// which their players registered.
    pub open spec fn recipients(self, clients: Seq<ClientView>) -> Seq<ChannelId> {
        clients.filter_map(self.channel_of())
    }
}

/// One message for one connection.
#[derive(Debug)]
pub struct Delivery {
    /// The channel of the connection.
    pub channel: ChannelId,
    /// The text of the message.
    pub payload: String,
}

/// A `Delivery` as contracts see it.
pub struct DeliveryView {
    pub channel: ChannelId,
    pub payload: Seq<char>,
}

impl View for Delivery {
    type V = DeliveryView;

    open spec fn view(&self) -> DeliveryView {
        DeliveryView { channel: self.channel, payload: self.payload@ }
    }
}

impl Delivery {
    /// What became of the delivery: `enqueued` says whether the channel took
    /// it. `DeliveryFailed` where it did not; that concerns the receiver
    /// alone and is never a reason to end the sender's task.
    pub fn outcome(&self, enqueued: bool) -> (done: Result<(), Error>)
        ensures
            enqueued ==> done is Ok,
            !enqueued ==> (done matches Err(e) && e@ == ErrorView::DeliveryFailed(
                "the connection's channel took no message"@,
            )),
    {
        if enqueued {
            Ok(())
        } else {
            Err(Error::DeliveryFailed("the connection's channel took no message".to_owned()))
        }
    }
}

/// A list of deliveries as contracts see it.
pub open spec fn deliveries_view(deliveries: Seq<Delivery>) -> Seq<DeliveryView> {
    Seq::new(deliveries.len(), |i: int| deliveries[i]@)
}

/// The same text for each of `channels`, in their order.
pub open spec fn fan_out(channels: Seq<ChannelId>, payload: Seq<char>) -> Seq<DeliveryView> {
    Seq::new(channels.len(), |i: int| DeliveryView { channel: channels[i], payload })
}

/// What publishing `message` with the criteria `params` delivers: its text,
/// once for each connected player that the criteria select.
pub open spec fn published(
    clients: Seq<ClientView>,
    message: ServerMessageView,
    params: PublishParamsView,
) -> Seq<DeliveryView> {
    fan_out(params.recipients(clients), server_message_json(message))
}

/// A channel gets a message exactly if it is the channel of the connection
/// of a player that the criteria select.
pub proof fn lemma_recipients(params: PublishParamsView, clients: Seq<ClientView>, channel: ChannelId)
    ensures
        params.recipients(clients).contains(channel) <==> exists|i: int|
            0 <= i < clients.len() && params.selects(#[trigger] clients[i]) && clients[i].sender
                == Some(channel),
    decreases clients.len(),
{
    let pick = params.channel_of();
    if clients.len() == 0 {
        assert(!clients.filter_map(pick).contains(channel));
    } else {
        let rest = clients.drop_last();
        let last = clients.last();
        lemma_recipients(params, rest, channel);
        let earlier = rest.filter_map(pick);
        let all = clients.filter_map(pick);
        assert(all == match pick(last) {
            Some(c) => earlier + seq![c],
            None => earlier,
        });
        if all.contains(channel) {
            let k = all.index_of(channel);
            if k < earlier.len() {
                assert(earlier[k] == channel);
                let i = choose|i: int|
                    0 <= i < rest.len() && params.selects(#[trigger] rest[i]) && rest[i].sender
                        == Some(channel);
                assert(clients[i] == rest[i]);
            } else {
                assert(pick(last) == Some(channel));
                assert(clients[clients.len() - 1] == last);
            }
        }
        if exists|i: int|
            0 <= i < clients.len() && params.selects(#[trigger] clients[i]) && clients[i].sender
                == Some(channel) {
            let i = choose|i: int|
                0 <= i < clients.len() && params.selects(#[trigger] clients[i])
                    && clients[i].sender == Some(channel);
            if i < rest.len() {
                assert(rest[i] == clients[i]);
                let k = earlier.index_of(channel);
                assert(all[k] == channel);
            } else {
                assert(pick(last) == Some(channel));
                assert(all[all.len() - 1] == channel);
            }
        }
    }
}

/// What is published is the message's text, and it goes to exactly the
/// channels of the connections of the players that the criteria select.
pub proof fn lemma_published(
    clients: Seq<ClientView>,
    message: ServerMessageView,
    params: PublishParamsView,
    delivery: DeliveryView,
)
    ensures
        published(clients, message, params).contains(delivery) <==> delivery.payload
            == server_message_json(message) && exists|i: int|
            0 <= i < clients.len() && params.selects(#[trigger] clients[i]) && clients[i].sender
                == Some(delivery.channel),
{
    let channels = params.recipients(clients);
    let out = published(clients, message, params);
    lemma_recipients(params, clients, delivery.channel);
    if out.contains(delivery) {
        let k = out.index_of(delivery);
        assert(channels[k] == delivery.channel);
    }
    if delivery.payload == server_message_json(message) && channels.contains(delivery.channel) {
        let k = channels.index_of(delivery.channel);
        assert(out[k] == delivery);
    }
}

/// A message published for the player `name` reaches no connection but
/// those of players of that name, whatever game the criteria name. Where
/// they name no game, it reaches every connection of such a player.
pub proof fn lemma_publish_by_name(
    clients: Seq<ClientView>,
    message: ServerMessageView,
    name: Seq<char>,
    game_id: Option<Seq<char>>,
)
    ensures
        forall|delivery: DeliveryView| #[trigger]
            published(
                clients,
                message,
                PublishParamsView { player_name: Some(name), game_id },
            ).contains(delivery) ==> exists|i: int|
                0 <= i < clients.len() && (#[trigger] clients[i]).player_name == name
                    && clients[i].sender == Some(delivery.channel),
        forall|i: int|
            0 <= i < clients.len() && (#[trigger] clients[i]).player_name == name
                && clients[i].sender.is_some() ==> published(
                clients,
                message,
                PublishParamsView { player_name: Some(name), game_id: None },
            ).contains(
                DeliveryView {
                    channel: clients[i].sender.unwrap(),
                    payload: server_message_json(message),
                },
            ),
{
    let named = PublishParamsView { player_name: Some(name), game_id };
    assert forall|delivery: DeliveryView| #[trigger]
        published(clients, message, named).contains(delivery) implies exists|i: int|
        0 <= i < clients.len() && (#[trigger] clients[i]).player_name == name && clients[i].sender
            == Some(delivery.channel) by {
        lemma_published(clients, message, named, delivery);
        let i = choose|i: int|
            0 <= i < clients.len() && named.selects(#[trigger] clients[i]) && clients[i].sender
                == Some(delivery.channel);
        assert(clients[i].player_name == name);
    }
    let anywhere = PublishParamsView { player_name: Some(name), game_id: None };
    assert forall|i: int|
        0 <= i < clients.len() && (#[trigger] clients[i]).player_name == name
            && clients[i].sender.is_some() implies published(clients, message, anywhere).contains(
        DeliveryView {
            channel: clients[i].sender.unwrap(),
            payload: server_message_json(message),
        },
    ) by {
        let delivery = DeliveryView {
            channel: clients[i].sender.unwrap(),
            payload: server_message_json(message),
        };
        lemma_published(clients, message, anywhere, delivery);
        assert(anywhere.selects(clients[i]));
    }
}

/// Whether a message with the criteria `params` is for `client`.
pub fn selects(params: &PublishParams, client: &Client) -> (selected: bool)
    ensures
        selected == params@.selects(client@),
{
    let by_name = match &params.player_name {
        Some(name) => client.player_name == *name,
        None => true,
    };
    let by_game = match &params.game_id {
        Some(game_id) => match &client.game_id {
            Some(theirs) => *theirs == *game_id,
            None => false,
        },
        None => true,
    };
    by_name && by_game
}

/// Decides who gets `message`: every registered player that `params`
/// selects and that has a connection, each once, in the order of
/// registration. Nothing is sent here, and nobody else is affected.
pub fn publish(clients: &ClientRegistry, message: &ServerMessage, params: &PublishParams) -> (out:
    Vec<Delivery>)
    ensures
        deliveries_view(out@) == published(clients.in_order(), message@, params@),
{
    let payload = encode_server_message(message);
    let mut out: Vec<Delivery> = Vec::new();
    let n: usize = clients.len();
    let mut i: usize = 0;
    let ghost all = clients.in_order();
    let ghost pick = params@.channel_of();
    proof {
        assert(all.take(0) =~= Seq::<ClientView>::empty());
        assert(deliveries_view(out@) =~= fan_out(all.take(0).filter_map(pick), payload@));
    }
    while i < n
        invariant
            i <= n,
            n == clients.tokens().len(),
            all == clients.in_order(),
            pick == params@.channel_of(),
            deliveries_view(out@) == fan_out(all.take(i as int).filter_map(pick), payload@),
        decreases n - i,
    {
        let client = clients.client_at(i);
        let ghost before = out@;
        let ghost earlier = all.take(i as int).filter_map(pick);
        let ghost now = all.take(i as int + 1).filter_map(pick);
        proof {
            all.lemma_filter_map_take_succ(pick, i as int);
            assert(all[i as int] == client@);
            assert(pick(client@) == if params@.selects(client@) {
                client@.sender
            } else {
                None
            });
        }
        if selects(params, client) {
            match client.sender {
                Some(channel) => {
                    out.push(Delivery { channel, payload: payload.clone() });
                },
                None => {},
            }
        }
        proof {
            // the lengths first: the views are compared place by place
            assert(deliveries_view(before).len() == before.len());
            assert(fan_out(earlier, payload@).len() == earlier.len());
            if pick(client@).is_some() {
                assert(now =~= earlier.push(pick(client@).unwrap()));
            } else {
                assert(now =~= earlier);
            }
            assert forall|j: int| 0 <= j < now.len() implies deliveries_view(out@)[j] == fan_out(
                now,
                payload@,
            )[j] by {
                if j < earlier.len() {
                    assert(deliveries_view(before)[j] == fan_out(earlier, payload@)[j]);
                }
            }
            assert(deliveries_view(out@) =~= fan_out(now, payload@));
        }
        i = i + 1;
    }
    proof {
        assert(all.take(n as int) =~= all);
    }
    out
}

/// Serves a request to publish `msg` to the players that `params` select:
/// see `publish`.
pub fn publish_handler(msg: ServerMessage, clients: &ClientRegistry, params: PublishParams) -> (out:
    Vec<Delivery>)
    ensures
        deliveries_view(out@) == published(clients.in_order(), msg@, params@),
{
    publish(clients, &msg, &params)
}

/// Decides who gets a message for the player `player`: the connections of
/// the registered players of that name.
pub fn publish_to_player(clients: &ClientRegistry, player: &PlayerName, message: &ServerMessage) -> (out:
    Vec<Delivery>)
    ensures
        deliveries_view(out@) == published(
            clients.in_order(),
            message@,
            PublishParamsView { player_name: Some(player@), game_id: None },
        ),
{
    let params = PublishParams { player_name: Some(player.clone()), game_id: None };
    publish(clients, message, &params)
}

/// Decides who gets a message for the game `game_id`: the connections of the
/// registered players who are in that game.
pub fn publish_to_game(clients: &ClientRegistry, game_id: &GameId, message: &ServerMessage) -> (out:
    Vec<Delivery>)
    ensures
        deliveries_view(out@) == published(
            clients.in_order(),
            message@,
            PublishParamsView { player_name: None, game_id: Some(game_id@) },
        ),
{
    let params = PublishParams { player_name: None, game_id: Some(game_id.clone()) };
    publish(clients, message, &params)
}

} // verus!
