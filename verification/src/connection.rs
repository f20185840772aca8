//! The life of one connection: it is opened for a registered player, carries
//! the player's messages while it is active, and is cleaned up when it ends.
//!
//! A player begins to wait for an opponent when the connection opens, not
//! when the player registers: who waits can therefore be reached.

use vstd::prelude::*;
use vstd::string::StringExecFns;
use crate::actions::{serve_message, served_as_message};
use crate::error::{Error, ErrorView};
use crate::gamestate::GameStateView;
use crate::keys::without;
use crate::messages::{RegisterRequest, RegisterResponse};
use crate::queue::{enqueued, MatchmakingQueue};
use crate::registry::{waiting, ClientRegistry, ClientView};
use crate::relay::Delivery;
use crate::rules::GameRules;
use crate::store::GameStateStore;
use crate::types::{ChannelId, Token};
use crate::wire::{decode_client_text, decoded, Inbound};

verus! {

/// Where a player's connection is opened, on the broker's host and port:
/// the token is put behind this.
pub const CONNECT_URL: &'static str = "ws://127.0.0.1:8191/ws/";

/// Registers the player of `body` and says where the player's connection is
/// to be opened: at `CONNECT_URL` followed by the player's new token.
pub fn register_handler(body: RegisterRequest, clients: &mut ClientRegistry) -> (response:
    RegisterResponse)
    ensures
        exists|token: Seq<char>|
            {
                &&& #[trigger] response.url@ == CONNECT_URL@ + token
                &&& !old(clients)@.contains_key(token)
                &&& final(clients)@ == old(clients)@.insert(
                    token,
                    ClientView::registered(body.player_name@),
                )
                &&& final(clients).tokens() == old(clients).tokens().push(token)
            },
{
    let token = clients.register(body.player_name);
    let mut url = String::from_str(CONNECT_URL);
    url.append(token.as_str());
    RegisterResponse { url }
}

/// Takes the player under the token `id` out of the registry and out of the
/// queue; says whether a player was registered under it.
pub fn unregister_handler(id: &Token, clients: &mut ClientRegistry, queue: &mut MatchmakingQueue) -> (known:
    bool)
    ensures
        known == old(clients)@.contains_key(id@),
        final(clients)@ == old(clients)@.remove(id@),
        final(clients).tokens() == without(old(clients).tokens(), id@),
        final(queue)@ == without(old(queue)@, id@),
{
    let _ = queue.remove(id);
    clients.remove(id).is_some()
}

/// Answers the request for a connection under the token `id`: a handler for
/// the connection, not yet open, where a player is registered under `id`,
/// and `NoPlayer` where none is.
pub fn ws_handler(id: Token, clients: &ClientRegistry) -> (answer: Result<ConnectionHandler, Error>)
    ensures
        match answer {
            Ok(handler) => clients@.contains_key(id@) && handler@ == (ConnectionView {
                token: id@,
                state: ConnectionState::Upgrading,
            }),
            Err(e) => !clients@.contains_key(id@) && e@ == ErrorView::NoPlayer(
                "no player is registered under this token"@,
            ),
        },
{
    if clients.contains(&id) {
        Ok(ConnectionHandler::new(id))
    } else {
        Err(Error::NoPlayer("no player is registered under this token".to_owned()))
    }
}

/// A frame that came in on a connection.
#[derive(Debug)]
pub enum Frame {
    /// A text frame with its text.
    Text(String),
    /// A frame of any other kind: binary, ping, pong or close.
    Other,
}

/// The stage of a connection's life.
#[derive(Debug, Clone, Copy, PartialEq, Eq, Structural)]
pub enum ConnectionState {
    /// The connection has been asked for and is not open yet.
    Upgrading,
    /// The connection is open and carries messages.
    Active,
    /// The connection has ended, or was refused.
    Closed,
}

/// The handler of one connection.
#[derive(Debug)]
pub struct ConnectionHandler {
    token: Token,
    state: ConnectionState,
}

/// A `ConnectionHandler` as contracts see it.
pub struct ConnectionView {
    pub token: Seq<char>,
    pub state: ConnectionState,
}

impl View for ConnectionHandler {
    type V = ConnectionView;

    closed spec fn view(&self) -> ConnectionView {
        ConnectionView { token: self.token@, state: self.state }
    }
}

/// What happens on a connection.
#[derive(Debug)]
pub enum ConnectionEvent {
    /// The connection is open; the field is its channel.
    Upgraded(ChannelId),
    /// A frame came in.
    Received(Frame),
    /// The socket failed or reached its end.
    Ended,
}

/// What opening a connection comes to.
pub struct Opening {
    /// The stage of the handler afterwards.
    pub state: ConnectionState,
    pub clients: Map<Seq<char>, ClientView>,
    pub queue: Seq<Seq<char>>,
    /// Whether the connection was refused.
    pub refused: bool,
}

/// Opening a connection under `token` with `channel` as its channel. Where
/// no player is registered under the token, the connection is refused and
/// the handler closed. Else the channel is recorded for the player, the
/// player joins the queue unless in a game or in the queue, and the handler
/// is active.
pub open spec fn opening(
    token: Seq<char>,
    clients: Map<Seq<char>, ClientView>,
    queue: Seq<Seq<char>>,
    channel: ChannelId,
) -> Opening {
    if clients.contains_key(token) {
        Opening {
            state: ConnectionState::Active,
            clients: clients.insert(token, clients[token].attached(channel)),
            queue: if waiting(clients, token) {
                enqueued(queue, token)
            } else {
                queue
            },
            refused: false,
        }
    } else {
        Opening { state: ConnectionState::Closed, clients, queue, refused: true }
    }
}

/// What serving an inbound frame comes to, given what the frame means. A
/// keepalive asks for nothing. What is malformed is refused with
/// `MalformedMessage`. In both cases no game changes. A message is served
/// as the player's action.
pub open spec fn inbound_served(
    token: Seq<char>,
    clients: Map<Seq<char>, ClientView>,
    in_order: Seq<ClientView>,
    before: Map<Seq<char>, GameStateView>,
    after: Map<Seq<char>, GameStateView>,
    inbound: Inbound,
    served: Result<Vec<Delivery>, Error>,
) -> bool {
    match inbound {
        Inbound::Ping => after == before && (served matches Ok(deliveries) && deliveries@.len()
            == 0),
        Inbound::Malformed => after == before && (served matches Err(e) && e@
            == ErrorView::MalformedMessage("not a message from a player"@)),
        Inbound::Message(_) => served_as_message(token, clients, in_order, before, after, served),
    }
}

/// What a frame is: a text frame is what its text is, every other frame is
/// malformed.
pub open spec fn frame_meaning(frame: Frame) -> Inbound {
    match frame {
        Frame::Text(text) => decoded(text@),
        Frame::Other => Inbound::Malformed,
    }
}

impl ConnectionHandler {
    /// The handler of a connection that was asked for with `token`.
    pub fn new(token: Token) -> (handler: Self)
        ensures
            handler@ == (ConnectionView { token: token@, state: ConnectionState::Upgrading }),
    {
        ConnectionHandler { token, state: ConnectionState::Upgrading }
    }

    /// The token the connection was asked for with.
    pub fn token(&self) -> (token: &Token)
        ensures
            token@ == self@.token,
    {
        &self.token
    }

    /// The stage of the connection's life.
    pub fn state(&self) -> (state: ConnectionState)
        ensures
            state == self@.state,
    {
        self.state
    }

    /// Opens the connection, with `channel` as its channel.
    ///
    /// Where no player is registered under the token, the connection is
    /// refused: `NoPlayer`, the handler is closed, and nothing else changes.
    /// Else the channel is recorded for the player, the player joins the
    /// queue unless already in a game or in the queue, and the handler is
    /// active.
    pub fn upgrade(
        &mut self,
        clients: &mut ClientRegistry,
        queue: &mut MatchmakingQueue,
        channel: ChannelId,
    ) -> (opened: Result<(), Error>)
        requires
            old(self)@.state is Upgrading,
        ensures
            final(self)@ == (ConnectionView {
                token: old(self)@.token,
                state: opening(old(self)@.token, old(clients)@, old(queue)@, channel).state,
            }),
            final(clients)@ == opening(old(self)@.token, old(clients)@, old(queue)@, channel).clients,
            final(clients).tokens() == old(clients).tokens(),
            final(queue)@ == opening(old(self)@.token, old(clients)@, old(queue)@, channel).queue,
            opened is Err == opening(old(self)@.token, old(clients)@, old(queue)@, channel).refused,
            opened matches Err(e) ==> e@ == ErrorView::NoPlayer(
                "no player is registered under this token"@,
            ),
    {
        let in_game = match clients.lookup(&self.token) {
            Some(client) => client.game_id.is_some(),
            None => {
                self.state = ConnectionState::Closed;
                return Err(
                    Error::NoPlayer("no player is registered under this token".to_owned()),
                );
            },
        };
        let _ = clients.attach_outbound(&self.token, channel);
        if !in_game {
            let _ = queue.enqueue(self.token.clone());
        }
        self.state = ConnectionState::Active;
        Ok(())
    }

    /// Serves what a frame turned out to be. A keepalive asks for nothing.
    /// A message is served as the player's action. What is malformed is
    /// refused with `MalformedMessage`. Whatever comes, the connection stays
    /// active, and unless a message was served no game changes.
    pub fn on_inbound<R: GameRules>(
        &mut self,
        rules: &R,
        inbound: Inbound,
        clients: &ClientRegistry,
        games: &mut GameStateStore,
    ) -> (served: Result<Vec<Delivery>, Error>)
        requires
            old(self)@.state is Active,
        ensures
            final(self)@ == old(self)@,
            final(games).ids() == old(games).ids(),
            inbound_served(
                old(self)@.token,
                clients@,
                clients.in_order(),
                old(games)@,
                final(games)@,
                inbound,
                served,
            ),
    {
        match inbound {
            Inbound::Ping => Ok(Vec::new()),
            Inbound::Malformed => Err(
                Error::MalformedMessage("not a message from a player".to_owned()),
            ),
            Inbound::Message(message) => serve_message(
                rules,
                &self.token,
                &message,
                clients,
                games,
            ),
        }
    }

    /// Serves a frame that came in on the connection: see `on_inbound`, with
    /// what the frame means.
    pub fn on_frame<R: GameRules>(
        &mut self,
        rules: &R,
        frame: &Frame,
        clients: &ClientRegistry,
        games: &mut GameStateStore,
    ) -> (served: Result<Vec<Delivery>, Error>)
        requires
            old(self)@.state is Active,
        ensures
            final(self)@ == old(self)@,
            final(games).ids() == old(games).ids(),
            inbound_served(
                old(self)@.token,
                clients@,
                clients.in_order(),
                old(games)@,
                final(games)@,
                frame_meaning(*frame),
                served,
            ),
    {
        let inbound = match frame {
            Frame::Text(text) => decode_client_text(text.as_str()),
            Frame::Other => Inbound::Malformed,
        };
        self.on_inbound(rules, inbound, clients, games)
    }

    /// Ends the connection: unless it had ended before, the player leaves
    /// the registry and the queue, and the handler is closed.
    pub fn close(&mut self, clients: &mut ClientRegistry, queue: &mut MatchmakingQueue)
        ensures
            final(self)@ == (ConnectionView {
                token: old(self)@.token,
                state: ConnectionState::Closed,
            }),
            old(self)@.state is Closed ==> {
                &&& final(clients)@ == old(clients)@
                &&& final(clients).tokens() == old(clients).tokens()
                &&& final(queue)@ == old(queue)@
            },
            !(old(self)@.state is Closed) ==> {
                &&& final(clients)@ == old(clients)@.remove(old(self)@.token)
                &&& final(clients).tokens() == without(old(clients).tokens(), old(self)@.token)
                &&& final(queue)@ == without(old(queue)@, old(self)@.token)
            },
    {
        match self.state {
            ConnectionState::Closed => {},
            _ => {
                let _ = unregister_handler(&self.token, clients, queue);
                self.state = ConnectionState::Closed;
            },
        }
    }
}

/// Takes one event of a connection to its handler.
///
/// A connection that has been asked for is opened when it is upgraded. An
/// active connection serves the frames it receives. A connection that ends
/// is cleaned up, once. An event that does not fit the stage of the
/// connection is dropped: nothing changes and nothing is delivered.
pub fn client_connection<R: GameRules>(
    handler: &mut ConnectionHandler,
    rules: &R,
    event: ConnectionEvent,
    clients: &mut ClientRegistry,
    queue: &mut MatchmakingQueue,
    games: &mut GameStateStore,
) -> (served: Result<Vec<Delivery>, Error>)
    ensures
        final(handler)@.token == old(handler)@.token,
        final(games).ids() == old(games).ids(),
        match (old(handler)@.state, event) {
            (ConnectionState::Upgrading, ConnectionEvent::Upgraded(channel)) => {
                let open = opening(old(handler)@.token, old(clients)@, old(queue)@, channel);
                &&& final(handler)@.state == open.state
                &&& final(clients)@ == open.clients
                &&& final(clients).tokens() == old(clients).tokens()
                &&& final(queue)@ == open.queue
                &&& final(games)@ == old(games)@
                &&& served is Err == open.refused
                &&& served matches Ok(deliveries) ==> deliveries@.len() == 0
                &&& served matches Err(e) ==> e@ == ErrorView::NoPlayer(
                    "no player is registered under this token"@,
                )
            },
            (ConnectionState::Active, ConnectionEvent::Received(frame)) => {
                &&& final(handler)@.state is Active
                &&& final(clients)@ == old(clients)@
                &&& final(clients).tokens() == old(clients).tokens()
                &&& final(queue)@ == old(queue)@
                &&& inbound_served(
                    old(handler)@.token,
                    old(clients)@,
                    old(clients).in_order(),
                    old(games)@,
                    final(games)@,
                    frame_meaning(frame),
                    served,
                )
            },
            (ConnectionState::Upgrading, ConnectionEvent::Ended) | (
                ConnectionState::Active,
                ConnectionEvent::Ended,
            ) => {
                &&& final(handler)@.state is Closed
                &&& final(clients)@ == old(clients)@.remove(old(handler)@.token)
                &&& final(clients).tokens() == without(old(clients).tokens(), old(handler)@.token)
                &&& final(queue)@ == without(old(queue)@, old(handler)@.token)
                &&& final(games)@ == old(games)@
                &&& served matches Ok(deliveries) && deliveries@.len() == 0
            },
            _ => {
                &&& final(handler)@.state == old(handler)@.state
                &&& final(clients)@ == old(clients)@
                &&& final(clients).tokens() == old(clients).tokens()
                &&& final(queue)@ == old(queue)@
                &&& final(games)@ == old(games)@
                &&& served matches Ok(deliveries) && deliveries@.len() == 0
            },
        },
{
    match (handler.state(), event) {
        (ConnectionState::Upgrading, ConnectionEvent::Upgraded(channel)) => {
            match handler.upgrade(clients, queue, channel) {
                Ok(_) => Ok(Vec::new()),
                Err(e) => Err(e),
            }
        },
        (ConnectionState::Active, ConnectionEvent::Received(frame)) => {
            handler.on_frame(rules, &frame, clients, games)
        },
        (ConnectionState::Upgrading, ConnectionEvent::Ended) | (
            ConnectionState::Active,
            ConnectionEvent::Ended,
        ) => {
            handler.close(clients, queue);
            Ok(Vec::new())
        },
        _ => Ok(Vec::new()),
    }
}

} // verus!
