//! The state of a light client of an ICON chain, its consensus state and the
//! headers it is updated with.
use vstd::prelude::*;

use crate::error::ClientError;
use crate::ibc_types::Height;
use crate::ics04_channel::packet::packet_types::ClientFacts;

verus! {

/// A light client of an ICON chain.
#[derive(Debug)]
pub struct ClientState {
    pub trusting_period: u64,
    pub frozen_height: Option<u64>,
    pub max_clock_drift: u64,
    pub latest_height: u64,
    pub network_section_hash: Vec<u8>,
    pub validators: Vec<Vec<u8>>,
}

impl ClientState {
    /// A client state; a frozen height of zero means "not frozen", and the
    /// maximum clock drift must be positive.
    pub fn new(
        trusting_period: u64,
        frozen_height: u64,
        max_clock_drift: u64,
        latest_height: u64,
        network_section_hash: Vec<u8>,
        validators: Vec<Vec<u8>>,
    ) -> (r: Result<ClientState, ClientError>)
        ensures
            max_clock_drift == 0 <==> r is Err,
            r is Err ==> (r matches Err(ClientError::Other { description }) && description@ == "ClientState max-clock-drift must be greater than zero"@),
            r matches Ok(c) ==> c.trusting_period == trusting_period
                && c.frozen_height == (if frozen_height == 0 { None } else { Some(frozen_height) })
                && c.max_clock_drift == max_clock_drift && c.latest_height == latest_height
                && c.network_section_hash == network_section_hash && c.validators == validators,
    {
        let frozen_height = if frozen_height == 0 { None } else { Some(frozen_height) };
        if max_clock_drift == 0 {
            return Err(ClientError::Other { description: String::from_str("ClientState max-clock-drift must be greater than zero") });
        }
        Ok(ClientState { trusting_period, frozen_height, max_clock_drift, latest_height, network_section_hash, validators })
    }

    /// Whether the client is frozen.
    pub fn is_frozen(&self) -> (r: bool)
        ensures
            r == self.frozen_height is Some,
    {
        self.frozen_height.is_some()
    }

    /// The latest height of the client, in revision zero.
    pub fn get_latest_height(&self) -> (r: Height)
        ensures
            r == (Height { revision_number: 0, revision_height: self.latest_height }),
    {
        Height::new(0, self.latest_height)
    }

    /// Whether `elapsed_secs` seconds exceed the trusting period.
    pub fn expired(&self, elapsed_secs: u64) -> (r: bool)
        ensures
            r == (elapsed_secs > self.trusting_period),
    {
        elapsed_secs > self.trusting_period
    }

    /// What the handlers need of the client state.
    pub fn facts(&self) -> (r: ClientFacts)
        ensures
            r.frozen == self.frozen_height is Some,
            r.latest_height == (Height { revision_number: 0, revision_height: self.latest_height }),
    {
        ClientFacts { frozen: self.is_frozen(), latest_height: self.get_latest_height() }
    }
}

/// The consensus state of an ICON client: the root of its messages.
#[derive(Debug)]
pub struct ConsensusState {
    pub message_root: Vec<u8>,
}

impl ConsensusState {
    pub fn new(message_root: Vec<u8>) -> (r: Result<ConsensusState, ClientError>)
        ensures
            r matches Ok(c) && c.message_root == message_root,
    {
        Ok(ConsensusState { message_root })
    }

    pub fn message_root(&self) -> (r: &Vec<u8>)
        ensures
            r == &self.message_root,
    {
        &self.message_root
    }

    pub fn as_bytes(&self) -> (r: &[u8])
        ensures
            r@ == self.message_root@,
    {
        self.message_root.as_slice()
    }
}

/// A node on a Merkle path: the side of the sibling and its hash.
#[derive(Debug)]
pub struct MerkleNode {
    pub dir: i32,
    pub value: Vec<u8>,
}

/// A BTP block header.
#[derive(Debug)]
pub struct BtpHeader {
    pub main_height: u64,
    pub round: u32,
    pub next_proof_context_hash: Vec<u8>,
    pub network_section_to_root: Vec<MerkleNode>,
    pub network_id: u64,
    pub update_number: u64,
    pub prev_network_section_hash: Vec<u8>,
    pub message_count: u64,
    pub message_root: Vec<u8>,
    pub next_validators: Vec<Vec<u8>>,
}

/// A BTP header with the validators' signatures.
#[derive(Debug)]
pub struct SignedHeader {
    pub header: BtpHeader,
    pub signatures: Vec<Vec<u8>>,
}

} // verus!
