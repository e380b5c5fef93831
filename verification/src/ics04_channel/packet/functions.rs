//! The packet commitment.
use vstd::prelude::*;

use crate::encoding::{extend_bytes, push_be_bytes, sha256};
use crate::ibc_types::TimeoutHeight;
use crate::ics24_host::commitment::packet_commitment_spec;

verus! {

/// Computes the commitment to a packet: SHA-256 of the timeout timestamp, the
/// timeout revision number and height (eight big-endian bytes each) and the
/// SHA-256 of the data.
pub fn compute_packet_commitment(packet_data: &[u8], timeout_height: &TimeoutHeight, timeout_timestamp: u64) -> (r: Vec<u8>)
    ensures
        r@ == packet_commitment_spec(packet_data@, *timeout_height, timeout_timestamp),
        r@.len() == 32,
{
    let mut hash_input: Vec<u8> = Vec::new();
    push_be_bytes(&mut hash_input, timeout_timestamp);
    push_be_bytes(&mut hash_input, timeout_height.commitment_revision_number());
    push_be_bytes(&mut hash_input, timeout_height.commitment_revision_height());
    let data_hash = sha256(packet_data);
    extend_bytes(&mut hash_input, data_hash.as_slice());
    assert(hash_input@ =~= crate::encoding::be_bytes(timeout_timestamp) + crate::encoding::be_bytes(
        crate::ibc_types::timeout_revision_number(*timeout_height),
    ) + crate::encoding::be_bytes(crate::ibc_types::timeout_revision_height(*timeout_height))
        + crate::encoding::sha256_digest(packet_data@));
    sha256(hash_input.as_slice())
}

} // verus!
