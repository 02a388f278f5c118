//! Synchronising audio state between two machines on a local network: the
//! wire protocol for reading and setting a remote master volume, the serving
//! and requesting sides of it, and the transfer of a streaming session from
//! one playback device to another.
//!
//! Nothing here performs I/O. Each component is a set of total functions from
//! plain values to plain values; the program around the library reads, writes,
//! sleeps and calls the streaming service as these functions direct.

pub mod cli;
pub mod config;
pub mod controllers;
pub mod rpc;
