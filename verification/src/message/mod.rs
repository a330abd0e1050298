//! CoAP messages: header, token, options, payload, and their wire format.

pub mod body;
pub mod builder;
pub mod code;
pub mod error;
pub mod format;
pub mod header;
pub mod message;
pub mod option;
pub mod registry;
pub mod roundtrip;
pub mod token;

pub use body::Body;
pub use builder::MessageBuilder;
pub use code::{Method, RawCode, ResponseCode};
pub use header::{Header, MessageType};
pub use message::{Message, MessageKind};
pub use option::{Opt, Opts};
pub use token::Token;
