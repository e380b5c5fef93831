//! A light-client contract, known by its address.
use vstd::prelude::*;

verus! {

/// A light-client contract.
#[derive(Debug)]
pub struct LightClient {
    pub address: String,
}

impl LightClient {
    pub fn new(address: String) -> (r: LightClient)
        ensures
            r.address@ == address@,
    {
        LightClient { address }
    }

    /// The contract address of the light client.
    pub fn get_address(&self) -> (r: String)
        ensures
            r@ == self.address@,
    {
        self.address.clone()
    }
}

} // verus!
