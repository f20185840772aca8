//! What a player's controls can express.

use vstd::prelude::*;
use crate::messages::ClientMessage;

verus! {

/// The buttons of a player's controls.
#[derive(Debug, PartialEq, Eq, Hash, Structural)]
pub enum GameButton {
    A,
}

impl Clone for GameButton {
    fn clone(&self) -> (copy: Self)
        ensures
            copy == *self,
    {
        match self {
            GameButton::A => GameButton::A,
        }
    }
}

impl GameButton {
    /// The message that tells the broker that the button is pressed.
    pub open spec fn spec_message(self) -> ClientMessage {
        match self {
            GameButton::A => ClientMessage::PressedA,
        }
    }

    /// The message that tells the broker that the button is pressed.
    pub fn message(&self) -> (message: ClientMessage)
        ensures
            message == self.spec_message(),
    {
        match self {
            GameButton::A => ClientMessage::PressedA,
        }
    }
}

} // verus!
