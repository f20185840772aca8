//! A session broker for small real-time multiplayer games.
//!
//! Players register and are given a token. When a player's connection opens
//! under that token, the player waits in a queue; the two players who have
//! waited longest are paired into a game. Each game is advanced tick by tick
//! by the rules of the game until they declare it over. Whatever the players
//! are to learn reaches them through one relay, which decides which
//! connections a message is for.
//!
//! The broker owns no socket, no timer and no lock. Its functions take the
//! registries they work on, change them, and hand back what is to be
//! delivered; the program around it does the waiting and the sending.
//!
//! - [`registry`]: the registered players, by token
//! - [`queue`]: the players that wait for an opponent
//! - [`store`] and [`gamestate`]: the running games
//! - [`matchmaking`]: pairing the players that wait
//! - [`session`] and [`rules`]: ticking a game
//! - [`connection`] and [`actions`]: serving a player's connection
//! - [`relay`]: who gets a message
//! - [`messages`] and [`wire`]: the messages and their text
//! - [`client`] and [`input`]: the player's side
//! - [`error`], [`types`], [`ids`], [`keys`]: what the others share

pub mod actions;
pub mod client;
pub mod connection;
pub mod error;
pub mod gamestate;
pub mod ids;
pub mod input;
mod keyed;
pub mod keys;
pub mod matchmaking;
pub mod messages;
pub mod queue;
pub mod registry;
pub mod relay;
pub mod rules;
pub mod session;
pub mod store;
pub mod types;
pub mod wire;
