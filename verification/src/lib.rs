//! Server-side message layer of the Constrained Application Protocol (RFC 7252):
//! the wire codec, the option registry, and the per-exchange reliability
//! state machine, with their behaviour stated as contracts.

pub mod codec;
pub mod error;
pub mod exchange;
pub mod message;
pub mod midgen;
pub mod params;
pub mod peer;
pub mod reliability;
pub mod request;
pub mod response;
pub mod server;
pub mod text;
pub mod wire;
