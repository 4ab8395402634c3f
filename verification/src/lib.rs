//! Client-side protocol core for forwarding trace segments to a local daemon
//! over UDP: the endpoint addresses, the datagram framing and the connection
//! lifecycle, with the socket work left to the embedding program.

pub mod address;
pub mod client;
pub mod framing;

pub use client::{ClientState, Connected, ConnectedBlocking, DaemonClient, Start};
