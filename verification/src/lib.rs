//! Keeps a local media player in step with remote peers by relaying
//! single-byte transport commands over a publish/subscribe channel.

pub mod console;
pub mod identity;
pub mod net;
pub mod player_cmd;
pub mod transport;
