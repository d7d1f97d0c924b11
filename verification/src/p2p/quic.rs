//! A QUIC transport. Nothing travels yet: every operation succeeds at once
//! and nothing is ever received.

use super::Connection;
use crate::Error;
use vstd::prelude::*;

verus! {

/// A connection over QUIC.
pub struct QuicConnection {}

impl QuicConnection {
    pub fn new() -> QuicConnection {
        QuicConnection {  }
    }
}

impl Connection for QuicConnection {
    fn connect(&mut self) -> (r: Result<(), Error>)
        ensures
            r is Ok,
    {
        Ok(())
    }

    fn send(&mut self, data: &[u8]) -> (r: Result<(), Error>)
        ensures
            r is Ok,
    {
        Ok(())
    }

    fn receive(&mut self) -> (r: Result<Vec<u8>, Error>)
        ensures
            r matches Ok(data) && data@.len() == 0,
    {
        Ok(Vec::new())
    }

    fn close(&mut self) -> (r: Result<(), Error>)
        ensures
            r is Ok,
    {
        Ok(())
    }
}

} // verus!
