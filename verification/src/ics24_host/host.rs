//! Capabilities of modules over ports and channels, the expected block time and
//! the block delay of a connection.
use vstd::prelude::*;

use crate::context::CwIbcCoreContext;
use crate::error::{decode_error, not_found, ContractError};
use crate::ibc_types::{strings_contain, strings_view};
use crate::state::StoreView;
use crate::storage_keys::{storage_key_name, StorageKey};

verus! {

/// The prefix under which a contract at `address` keeps the entries of its
/// storage namespace `namespace`: the address, the namespace's length in two
/// big-endian bytes, and the namespace.
pub open spec fn address_storage_prefix(address: Seq<u8>, namespace: Seq<u8>) -> Seq<u8> {
    address + seq![(namespace.len() / 256) as u8, (namespace.len() % 256) as u8] + namespace
}

/// The commitment prefix of a host contract whose storage belongs to
/// `address`: the prefix of its `commitments` namespace.
pub fn commitment_prefix(address: &String) -> (r: Vec<u8>)
    ensures
        r@ == address_storage_prefix(vstd::utf8::encode_utf8(address@), vstd::utf8::encode_utf8(storage_key_name(StorageKey::Commitments)@)),
{
    let namespace = StorageKey::Commitments.as_str().as_bytes();
    let mut out = crate::encoding::copy_bytes(address.as_str().as_bytes());
    let len = namespace.len();
    out.push((len / 256) as u8);
    out.push((len % 256) as u8);
    crate::encoding::extend_bytes(&mut out, namespace);
    proof {
        assert(out@ =~= address_storage_prefix(vstd::utf8::encode_utf8(address@), namespace@));
    }
    out
}

/// The number of blocks that a delay of `delay_nanos` stands for: its whole
/// seconds plus one per `max_secs` seconds of it (none where `max_secs` is zero).
pub open spec fn block_delay(delay_nanos: u64, max_secs: u64) -> u64 {
    if max_secs == 0 {
        0
    } else {
        ((delay_nanos / 1_000_000_000) + (delay_nanos / 1_000_000_000) / max_secs) as u64
    }
}

impl CwIbcCoreContext {
    /// Stores the holders of the capability `name`.
    pub fn store_capability(&mut self, name: Vec<u8>, address: Vec<String>) -> (r: Result<(), ContractError>)
        ensures
            r is Ok,
            final(self)@ == old(self)@.with_store(
                StoreView {
                    capabilities: old(self)@.store.capabilities.insert(name@, address@),
                    ..old(self)@.store
                },
            ),
    {
        self.store.capabilities.insert(name, address);
        Ok(())
    }

    /// The holders of the capability `name`.
    pub fn get_capability(&self, name: &Vec<u8>) -> (r: Result<Vec<String>, ContractError>)
        ensures
            match r {
                Ok(v) => self@.store.capabilities.contains_key(name@) && strings_view(v@) == strings_view(self@.store.capabilities[name@]),
                Err(e) => !self@.store.capabilities.contains_key(name@) && decode_error(e, "CapabilityNotFound"@),
            },
    {
        match self.store.capabilities.get(name) {
            Some(v) => Ok(crate::ibc_types::copy_strings(v)),
            None => Err(ContractError::IbcDecodeError { error: String::from_str("CapabilityNotFound") }),
        }
    }

    /// Sets the expected time per block, in seconds.
    pub fn set_expected_time_per_block(&mut self, expected_time_per_block: u64) -> (r: Result<(), ContractError>)
        ensures
            r is Ok,
            final(self)@ == old(self)@.with_store(
                StoreView { expected_time_per_block: Some(expected_time_per_block), ..old(self)@.store },
            ),
    {
        self.store.expected_time_per_block = Some(expected_time_per_block);
        Ok(())
    }

    /// Sets the expected time per block on behalf of `sender`, which must be
    /// the owner; nothing changes otherwise.
    pub fn set_expected_time_per_block_by_owner(&mut self, sender: &String, expected_time_per_block: u64) -> (r: Result<(), ContractError>)
        ensures
            match old(self)@.owner {
                None => final(self)@ == old(self)@ && (r matches Err(e) && not_found(e, "owner"@)),
                Some(o) => if o == sender@ {
                    r is Ok && final(self)@ == old(self)@.with_store(
                        StoreView { expected_time_per_block: Some(expected_time_per_block), ..old(self)@.store },
                    )
                } else {
                    final(self)@ == old(self)@ && r == Err::<(), ContractError>(ContractError::Unauthorized)
                },
            },
    {
        self.check_sender_is_owner(sender)?;
        self.set_expected_time_per_block(expected_time_per_block)
    }

    /// The expected time per block, in seconds.
    pub fn get_expected_time_per_block(&self) -> (r: Result<u64, ContractError>)
        ensures
            match self@.store.expected_time_per_block {
                Some(t) => r == Ok::<u64, ContractError>(t),
                None => r matches Err(e) && decode_error(e, "NotFound"@),
            },
    {
        match self.store.expected_time_per_block {
            Some(t) => Ok(t),
            None => Err(ContractError::IbcDecodeError { error: String::from_str("NotFound") }),
        }
    }

    /// Adds `address` to the holders of the existing capability `name`; fails
    /// where the capability does not exist or `address` already holds it.
    pub fn claim_capability(&mut self, name: Vec<u8>, address: String) -> (r: Result<(), ContractError>)
        ensures
            !old(self)@.store.capabilities.contains_key(name@) ==> final(self)@ == old(self)@ && (r matches Err(e) && decode_error(e, "KeyNotFound"@)),
            old(self)@.store.capabilities.contains_key(name@) && strings_view(old(self)@.store.capabilities[name@]).contains(address@)
                ==> final(self)@ == old(self)@ && (r matches Err(ContractError::IbcContextError { error }) && error@ == "Capability already claimed"@),
            old(self)@.store.capabilities.contains_key(name@) && !strings_view(old(self)@.store.capabilities[name@]).contains(address@)
                ==> r is Ok && strings_view(final(self)@.store.capabilities[name@]) == strings_view(old(self)@.store.capabilities[name@]).push(address@)
                && final(self)@.store.capabilities.dom() == old(self)@.store.capabilities.dom()
                && (forall|k: Seq<u8>| k != name@ ==> #[trigger] final(self)@.store.capabilities[k] == old(self)@.store.capabilities[k])
                && final(self)@ == old(self)@.with_store(StoreView { capabilities: final(self)@.store.capabilities, ..old(self)@.store }),
    {
        match self.store.capabilities.get(&name) {
            None => Err(ContractError::IbcDecodeError { error: String::from_str("KeyNotFound") }),
            Some(holders) => {
                if strings_contain(holders, &address) {
                    return Err(ContractError::IbcContextError { error: String::from_str("Capability already claimed") });
                }
                let mut updated = crate::ibc_types::copy_strings(holders);
                let ghost before = updated@;
                updated.push(address);
                proof {
                    assert(strings_view(updated@) =~= strings_view(before).push(address@));
                }
                self.store.capabilities.insert(name, updated);
                Ok(())
            },
        }
    }

    /// Whether `caller` holds the capability `name`, which must exist.
    pub fn authenticate_capability(&self, caller: &String, name: &Vec<u8>) -> (r: bool)
        requires
            self@.store.capabilities.contains_key(name@),
        ensures
            r == strings_view(self@.store.capabilities[name@]).contains(caller@),
    {
        match self.store.capabilities.get(name) {
            Some(holders) => strings_contain(holders, caller),
            None => false,
        }
    }

    /// The holders of the capability `name`; fails where it does not exist or
    /// nobody holds it.
    pub fn lookup_modules(&self, name: &Vec<u8>) -> (r: Result<Vec<String>, ContractError>)
        ensures
            match r {
                Ok(v) => self@.store.capabilities.contains_key(name@) && strings_view(v@) == strings_view(self@.store.capabilities[name@]) && v@.len() > 0,
                Err(e) => !self@.store.capabilities.contains_key(name@) && decode_error(e, "CapabilityNotFound"@)
                    || self@.store.capabilities.contains_key(name@) && self@.store.capabilities[name@].len() == 0 && e == ContractError::Unauthorized,
            },
    {
        let capabilities = self.get_capability(name)?;
        proof {
            assert(strings_view(capabilities@).len() == capabilities@.len());
            assert(strings_view(self@.store.capabilities[name@]).len() == self@.store.capabilities[name@].len());
        }
        if capabilities.len() == 0 {
            return Err(ContractError::Unauthorized);
        }
        Ok(capabilities)
    }

    /// The block delay that a connection delay of `delay_nanos` stands for,
    /// at the host's expected time per block.
    pub fn calc_block_delay(&self, delay_nanos: u64) -> (r: u64)
        ensures
            r == block_delay(delay_nanos, 60),
    {
        let max_expected_time_per_block = self.max_expected_time_per_block();
        if max_expected_time_per_block == 0 {
            return 0;
        }
        let secs = delay_nanos / 1_000_000_000;
        let delay = secs / max_expected_time_per_block;
        secs + delay
    }
}

} // verus!
