//! What the protocol and the transfer act upon: the local volume and power
//! backends and the streaming service's devices.

pub mod power;
pub mod spotify;
pub mod volume;
