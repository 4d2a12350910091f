//! Framing, message dispatch and voice tunnelling for the Mumble control channel.
pub mod buffer;
pub mod control;
pub mod error;
pub mod frame;
pub mod packet;
pub mod registry;
pub mod voice;
pub mod wire;
