//! Whether a message asks to be acknowledged.

use crate::message::header::MessageType;
use vstd::prelude::*;

verus! {

/// The reliability of a request or of a separate response.
#[derive(Clone, Copy, Debug, PartialEq, Eq, Structural)]
pub enum Reliablity {
    Confirmable,
    NonConfirmable,
}

impl Reliablity {
    /// The reliability that a message type stands for: only the types
    /// Confirmable and NonConfirmable stand for one.
    pub fn from_message_type(message_type: MessageType) -> (r: Option<Reliablity>)
        ensures
            r == match message_type {
                MessageType::Confirmable => Some(Reliablity::Confirmable),
                MessageType::NonConfirmable => Some(Reliablity::NonConfirmable),
                _ => None,
            },
    {
        match message_type {
            MessageType::Confirmable => Some(Reliablity::Confirmable),
            MessageType::NonConfirmable => Some(Reliablity::NonConfirmable),
            _ => None,
        }
    }

    /// The message type of a message sent with this reliability.
    pub fn message_type(&self) -> (mtype: MessageType)
        ensures
            mtype == match *self {
                Reliablity::Confirmable => MessageType::Confirmable,
                Reliablity::NonConfirmable => MessageType::NonConfirmable,
            },
    {
        match self {
            Reliablity::Confirmable => MessageType::Confirmable,
            Reliablity::NonConfirmable => MessageType::NonConfirmable,
        }
    }
}

} // verus!
