//! The text of the messages on a connection: one JSON value per frame.
//!
//! A message is a JSON object whose member `type` names the kind of message;
//! the other members carry its fields. Reading and writing JSON text itself
//! is left to `serde_json`; what this module decides is which members a
//! message has and which texts are messages at all.

use vstd::prelude::*;
use vstd::string::StringExecFns;
use crate::messages::{ClientMessage, ServerMessage, ServerMessageView};
use crate::types::text_view;

verus! {

/// The JSON string literal that `serde_json` writes for a text, quotes and
/// escapes included; `None` where it reports an error.
pub uninterp spec fn json_literal(text: Seq<char>) -> Option<Seq<char>>;

/// The members of a JSON document that `serde_json` reads as an object whose
/// values are all strings, ordered by key; `None` where it does not.
pub uninterp spec fn json_string_members(document: Seq<char>) -> Option<
    Seq<(Seq<char>, Seq<char>)>,
>;

/// The characters of each member of a list of members.
pub open spec fn members_view(members: Seq<(String, String)>) -> Seq<(Seq<char>, Seq<char>)> {
    Seq::new(members.len(), |i: int| (members[i].0@, members[i].1@))
}

/// The characters of an optional list of members.
pub open spec fn optional_members(members: Option<Vec<(String, String)>>) -> Option<
    Seq<(Seq<char>, Seq<char>)>,
> {
    match members {
        Some(list) => Some(members_view(list@)),
        None => None,
    }
}

/// Calls `serde_json::to_string` on a text. The result is the JSON string
/// literal for it, which is a function of the text alone; an error is handed
/// back as `None`.
#[verifier::external_body]
fn write_literal(text: &str) -> (literal: Option<String>)
    ensures
        text_view(literal) == json_literal(text@),
{
    match serde_json::to_string(text) {
        Ok(literal) => Some(literal),
        Err(_) => None,
    }
}

/// Calls `serde_json::from_str` to read a document as a map from strings to
/// strings, and lists the map's entries in its own order, which is that of
/// the keys. The result is a function of the document alone; an error is
/// handed back as `None`.
#[verifier::external_body]
fn read_string_members(document: &str) -> (members: Option<Vec<(String, String)>>)
    ensures
        optional_members(members) == json_string_members(document@),
{
    match serde_json::from_str::<std::collections::BTreeMap<String, String>>(document) {
        Ok(entries) => Some(entries.into_iter().collect()),
        Err(_) => None,
    }
}

/// How a text stands in a message: as its JSON string literal, or as `null`
/// where it has none.
pub open spec fn quoted(text: Seq<char>) -> Seq<char> {
    match json_literal(text) {
        Some(literal) => literal,
        None => "null"@,
    }
}

/// The member `,"player_name":..` of a state update, present where the update
/// names a player.
pub open spec fn player_name_member(player_name: Option<Seq<char>>) -> Seq<char> {
    match player_name {
        Some(name) => ",\"player_name\":"@ + quoted(name),
        None => Seq::empty(),
    }
}

/// The member `,"player_state":{}` of a state update, present where the
/// update carries a player's state.
pub open spec fn player_state_member(present: bool) -> Seq<char> {
    if present {
        ",\"player_state\":{}"@
    } else {
        Seq::empty()
    }
}

/// The JSON text of a message to a player.
pub open spec fn server_message_json(message: ServerMessageView) -> Seq<char> {
    match message {
        ServerMessageView::MatchFound(opponent) => "{\"type\":\"MatchFound\",\"opponent_name\":"@
            + quoted(opponent) + "}"@,
        ServerMessageView::StateUpdate { game_id, player_name, player_state } =>
            "{\"type\":\"StateUpdate\",\"game_id\":"@ + quoted(game_id) + player_name_member(
                player_name,
            ) + player_state_member(player_state.is_some()) + "}"@,
        ServerMessageView::GameOver { game_id } => "{\"type\":\"GameOver\",\"game_id\":"@ + quoted(
            game_id,
        ) + "}"@,
    }
}

/// Appends a text to `out` as it stands in a message.
fn push_quoted(out: &mut String, text: &str)
    ensures
        final(out)@ == old(out)@ + quoted(text@),
{
    match write_literal(text) {
        Some(literal) => out.append(literal.as_str()),
        None => out.append("null"),
    }
}

/// Writes a message to a player as JSON text.
pub fn encode_server_message(message: &ServerMessage) -> (text: String)
    ensures
        text@ == server_message_json(message@),
{
    match message {
        ServerMessage::MatchFound(opponent) => {
            let mut text = String::from_str("{\"type\":\"MatchFound\",\"opponent_name\":");
            push_quoted(&mut text, opponent.as_str());
            text.append("}");
            text
        },
        ServerMessage::StateUpdate { game_id, player_name, player_state } => {
            let mut text = String::from_str("{\"type\":\"StateUpdate\",\"game_id\":");
            push_quoted(&mut text, game_id.as_str());
            match player_name {
                Some(name) => {
                    text.append(",\"player_name\":");
                    push_quoted(&mut text, name.as_str());
                },
                None => {},
            }
            assert(text@ == "{\"type\":\"StateUpdate\",\"game_id\":"@ + quoted(game_id@)
                + player_name_member(message@->player_name));
            if player_state.is_some() {
                text.append(",\"player_state\":{}");
            }
            text.append("}");
            text
        },
        ServerMessage::GameOver { game_id } => {
            let mut text = String::from_str("{\"type\":\"GameOver\",\"game_id\":");
            push_quoted(&mut text, game_id.as_str());
            text.append("}");
            text
        },
    }
}

/// What an inbound text frame turned out to be.
#[derive(Debug, PartialEq, Eq, Structural)]
pub enum Inbound {
    /// A keepalive; nothing is to be done.
    Ping,
    /// A message from the player.
    Message(ClientMessage),
    /// Neither of the two.
    Malformed,
}

/// The value of the first member named `key`, if there is one.
pub open spec fn member(members: Seq<(Seq<char>, Seq<char>)>, key: Seq<char>) -> Option<Seq<char>>
    decreases members.len(),
{
    if members.len() == 0 {
        None
    } else if members[0].0 == key {
        Some(members[0].1)
    } else {
        member(members.drop_first(), key)
    }
}

/// The message that a tag names.
pub open spec fn message_of_tag(tag: Seq<char>) -> Option<ClientMessage> {
    if tag == ClientMessage::PressedA.tag() {
        Some(ClientMessage::PressedA)
    } else {
        None
    }
}

/// Whether a text is a keepalive: the word `ping`, bare or in double quotes.
pub open spec fn is_keepalive(text: Seq<char>) -> bool {
    text == "ping"@ || text == "\"ping\""@
}

/// What a frame is, given its text and its members if it is a JSON object
/// of strings. A keepalive is a ping. An object whose member `type` names a
/// message is that message. Everything else is malformed.
pub open spec fn interpreted(text: Seq<char>, as_members: Option<Seq<(Seq<char>, Seq<char>)>>) -> Inbound {
    if is_keepalive(text) {
        Inbound::Ping
    } else {
        match as_members {
            Some(members) => match member(members, "type"@) {
                Some(tag) => match message_of_tag(tag) {
                    Some(message) => Inbound::Message(message),
                    None => Inbound::Malformed,
                },
                None => Inbound::Malformed,
            },
            None => Inbound::Malformed,
        }
    }
}

/// What the text of a frame is.
pub open spec fn decoded(text: Seq<char>) -> Inbound {
    interpreted(text, json_string_members(text))
}

/// Whether two texts hold the same characters.
fn same_text(left: &str, right: &str) -> (same: bool)
    ensures
        same == (left@ == right@),
{
    let a = left.to_owned();
    let b = right.to_owned();
    a == b
}

/// The value of the first member named `key`, if there is one.
fn find_member<'a>(members: &'a Vec<(String, String)>, key: &str) -> (value: Option<&'a String>)
    ensures
        optional_ref_text(value) == member(members_view(members@), key@),
{
    let mut i: usize = 0;
    assert(members_view(members@).skip(0) =~= members_view(members@));
    while i < members.len()
        invariant
            i <= members@.len(),
            member(members_view(members@), key@) == member(
                members_view(members@).skip(i as int),
                key@,
            ),
        decreases members@.len() - i,
    {
        let ghost rest = members_view(members@).skip(i as int);
        assert(rest[0] == members_view(members@)[i as int]);
        assert(rest.drop_first() =~= members_view(members@).skip(i + 1));
        if same_text(members[i].0.as_str(), key) {
            return Some(&members[i].1);
        }
        i = i + 1;
    }
    None
}

/// The characters of an optional borrowed text.
pub open spec fn optional_ref_text(text: Option<&String>) -> Option<Seq<char>> {
    match text {
        Some(s) => Some(s@),
        None => None,
    }
}

/// Decides what a frame is from its text and from the members that
/// `serde_json` read in it.
pub fn interpret(text: &str, as_members: Option<Vec<(String, String)>>) -> (inbound: Inbound)
    ensures
        inbound == interpreted(text@, optional_members(as_members)),
{
    if same_text(text, "ping") || same_text(text, "\"ping\"") {
        return Inbound::Ping;
    }
    match &as_members {
        Some(members) => match find_member(members, "type") {
            Some(tag) => {
                if same_text(tag.as_str(), "PressedA") {
                    Inbound::Message(ClientMessage::PressedA)
                } else {
                    Inbound::Malformed
                }
            },
            None => Inbound::Malformed,
        },
        None => Inbound::Malformed,
    }
}

/// Reads the text of an inbound frame.
pub fn decode_client_text(text: &str) -> (inbound: Inbound)
    ensures
        inbound == decoded(text@),
{
    let as_members = read_string_members(text);
    interpret(text, as_members)
}

} // verus!
