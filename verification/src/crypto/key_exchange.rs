//! Key agreement between two devices. The wire protocol is not protected yet:
//! every key is empty.

use crate::Error;
use vstd::prelude::*;

verus! {

/// One side of a key agreement.
pub struct KeyExchange {}

impl KeyExchange {
    pub fn new() -> KeyExchange {
        KeyExchange {  }
    }

    /// A fresh pair of keys, the public one first.
    pub fn generate_keypair(&mut self) -> (r: Result<(Vec<u8>, Vec<u8>), Error>)
        ensures
            r matches Ok(pair) && pair.0@.len() == 0 && pair.1@.len() == 0,
            *final(self) == *old(self),
    {
        Ok((Vec::new(), Vec::new()))
    }

    /// The secret shared with the holder of `public_key`.
    pub fn exchange(&self, public_key: &[u8]) -> (r: Result<Vec<u8>, Error>)
        ensures
            r matches Ok(secret) && secret@.len() == 0,
    {
        Ok(Vec::new())
    }
}

} // verus!
