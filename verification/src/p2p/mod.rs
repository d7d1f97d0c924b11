//! Reaching peers: framed messages over TCP, discovery on the local network,
//! and the connection interface that transports share.

pub mod announce;
pub mod local_ip;
pub mod mdns;
pub mod quic;
pub mod registry;
pub mod tcp;

pub use quic::QuicConnection;

use crate::Error;
use vstd::prelude::*;

verus! {

/// A message-oriented connection to one peer.
pub trait Connection {
    fn connect(&mut self) -> Result<(), Error>;

    fn send(&mut self, data: &[u8]) -> Result<(), Error>;

    fn receive(&mut self) -> Result<Vec<u8>, Error>;

    fn close(&mut self) -> Result<(), Error>;
}

} // verus!
