//! What can go wrong while the broker serves a request.

use vstd::prelude::*;
use vstd::string::StringExecFns;

verus! {

/// A request that could not be served. Each variant carries a short
/// explanation for the log; none of them ends the task that met it.
#[derive(Debug)]
pub enum Error {
    /// No registered player answers to the token or name.
    NoPlayer(String),
    /// No game is stored under the identifier, or the player is in none.
    NoGame(String),
    /// An inbound frame is not one of the messages a player may send.
    MalformedMessage(String),
    /// A message could not be handed to a connection's channel.
    DeliveryFailed(String),
}

/// An `Error` as contracts see it: the variant and the characters of its
/// explanation.
pub enum ErrorView {
    NoPlayer(Seq<char>),
    NoGame(Seq<char>),
    MalformedMessage(Seq<char>),
    DeliveryFailed(Seq<char>),
}

impl View for Error {
    type V = ErrorView;

    open spec fn view(&self) -> ErrorView {
        match self {
            Error::NoPlayer(s) => ErrorView::NoPlayer(s@),
            Error::NoGame(s) => ErrorView::NoGame(s@),
            Error::MalformedMessage(s) => ErrorView::MalformedMessage(s@),
            Error::DeliveryFailed(s) => ErrorView::DeliveryFailed(s@),
        }
    }
}

impl ErrorView {
    /// The variant's name as it is written in the log.
    pub open spec fn label(self) -> Seq<char> {
        match self {
            ErrorView::NoPlayer(_) => "NoPlayer"@,
            ErrorView::NoGame(_) => "NoGame"@,
            ErrorView::MalformedMessage(_) => "MalformedMessage"@,
            ErrorView::DeliveryFailed(_) => "DeliveryFailed"@,
        }
    }

    /// The explanation that the error carries.
    pub open spec fn detail(self) -> Seq<char> {
        match self {
            ErrorView::NoPlayer(s) => s,
            ErrorView::NoGame(s) => s,
            ErrorView::MalformedMessage(s) => s,
            ErrorView::DeliveryFailed(s) => s,
        }
    }

    /// The line written for the error: the label, then the explanation in
    /// round brackets.
    pub open spec fn rendered(self) -> Seq<char> {
        self.label() + "("@ + self.detail() + ")"@
    }
}

impl Error {
    /// The variant's name.
    pub fn label(&self) -> (name: &'static str)
        ensures
            name@ == self@.label(),
    {
        match self {
            Error::NoPlayer(_) => "NoPlayer",
            Error::NoGame(_) => "NoGame",
            Error::MalformedMessage(_) => "MalformedMessage",
            Error::DeliveryFailed(_) => "DeliveryFailed",
        }
    }

    /// The explanation that the error carries.
    pub fn detail(&self) -> (text: &String)
        ensures
            text@ == self@.detail(),
    {
        match self {
            Error::NoPlayer(s) => s,
            Error::NoGame(s) => s,
            Error::MalformedMessage(s) => s,
            Error::DeliveryFailed(s) => s,
        }
    }

    /// The error as one line of text, such as `NoGame(no such game)`.
    pub fn to_string(&self) -> (line: String)
        ensures
            line@ == self@.rendered(),
    {
        let mut line = String::from_str(self.label());
        line.append("(");
        line.append(self.detail().as_str());
        line.append(")");
        line
    }

    /// The error beneath this one. The broker's errors stand alone, so there
    /// is none.
    pub fn source(&self) -> (cause: Option<&Error>)
        ensures
            cause.is_none(),
    {
        None
    }
}

} // verus!
