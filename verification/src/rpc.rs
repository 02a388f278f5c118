//! The volume-mirroring protocol: its byte grammar, the server that answers
//! it and the client that speaks it.

pub mod client;
pub mod protocol;
pub mod server;
