//! Relays a streamed audio payload into the input of an external player
//! process: the media check, the relay's state machine, and the mapping of
//! its outcome to a reply. The crate decides; its caller performs the I/O.

pub mod api;
pub mod config;
pub mod media;
pub mod speaker;
pub mod guarantees;
pub mod logger;
