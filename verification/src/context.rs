//! The host context: its store, its router of modules, its owner.
use vstd::prelude::*;

use crate::error::{not_found, ContractError, StdError};
use crate::msg::MigrateMsg;
use crate::ics26_routing::router::CwIbcRouter;
use crate::state::{CwIbcStore, StoreView};

use crate::constants::{CONTRACT_NAME, CONTRACT_VERSION};

verus! {

/// The name and version under which the contract records itself.
#[derive(Debug, PartialEq, Eq)]
pub struct ContractVersion {
    pub contract: String,
    pub version: String,
}

/// The name and version of this contract.
pub fn contract_version() -> (r: ContractVersion)
    ensures
        r.contract@ == CONTRACT_NAME@,
        r.version@ == CONTRACT_VERSION@,
{
    ContractVersion { contract: String::from_str(CONTRACT_NAME), version: String::from_str(CONTRACT_VERSION) }
}

/// The host: every piece of its state.
pub struct CwIbcCoreContext {
    pub block_height: Option<u64>,
    pub store: CwIbcStore,
    pub router: CwIbcRouter,
    pub owner: Option<String>,
}

/// What the host holds, taken by views.
pub struct ContextView {
    pub block_height: Option<u64>,
    pub store: StoreView,
    pub router: Map<Seq<char>, Seq<char>>,
    pub owner: Option<Seq<char>>,
}

impl ContextView {
    /// This view with its store replaced by `store`.
    pub open spec fn with_store(self, store: StoreView) -> ContextView {
        ContextView { store, ..self }
    }
}

impl View for CwIbcCoreContext {
    type V = ContextView;

    open spec fn view(&self) -> ContextView {
        ContextView {
            block_height: self.block_height,
            store: self.store@,
            router: self.router@,
            owner: match self.owner {
                Some(o) => Some(o@),
                None => None,
            },
        }
    }
}

impl CwIbcCoreContext {
    /// A host with nothing stored.
    pub fn new() -> (r: CwIbcCoreContext)
        ensures
            r@.block_height is None,
            r.store.empty(),
            r@.router.is_empty(),
            r@.owner is None,
    {
        CwIbcCoreContext {
            block_height: None,
            store: CwIbcStore::new(),
            router: CwIbcRouter::new(),
            owner: None,
        }
    }

    /// Removes everything the host holds: store, routes, owner and block height.
    pub fn clear_storage(&mut self)
        ensures
            final(self)@.block_height is None,
            final(self).store.empty(),
            final(self)@.router.is_empty(),
            final(self)@.owner is None,
    {
        *self = CwIbcCoreContext::new();
    }

    /// Migrates the host: with `clear_store` everything it holds is removed,
    /// otherwise nothing changes. The answer is the name and version that the
    /// contract records for itself.
    pub fn migrate(&mut self, msg: MigrateMsg) -> (r: Result<ContractVersion, ContractError>)
        ensures
            r matches Ok(v) && v.contract@ == CONTRACT_NAME@ && v.version@ == CONTRACT_VERSION@,
            msg.clear_store ==> final(self)@.block_height is None && final(self).store.empty() && final(self)@.router.is_empty() && final(self)@.owner is None,
            !msg.clear_store ==> final(self)@ == old(self)@,
    {
        if msg.clear_store {
            self.clear_storage();
        }
        Ok(contract_version())
    }

    /// Sets up a new host: the client, connection and channel counters start at
    /// zero, and `sender` becomes the owner.
    pub fn instantiate(&mut self, sender: String) -> (r: Result<(), ContractError>)
        ensures
            r is Ok,
            final(self)@ == (ContextView {
                owner: Some(sender@),
                store: StoreView {
                    next_channel_sequence: Some(0),
                    next_client_sequence: Some(0),
                    next_connection_sequence: Some(0),
                    ..old(self)@.store
                },
                ..old(self)@
            }),
    {
        self.store.next_channel_sequence = Some(0);
        self.store.next_client_sequence = Some(0);
        self.store.next_connection_sequence = Some(0);
        self.set_owner(sender);
        Ok(())
    }

    pub fn ibc_store(&self) -> (r: &CwIbcStore)
        ensures
            r@ == self@.store,
    {
        &self.store
    }

    pub fn ibc_router(&self) -> (r: &CwIbcRouter)
        ensures
            r@ == self@.router,
    {
        &self.router
    }

    pub fn block_height(&self) -> (r: Option<u64>)
        ensures
            r == self@.block_height,
    {
        self.block_height
    }

    pub fn owner(&self) -> (r: Option<&String>)
        ensures
            match r {
                Some(o) => self@.owner == Some(o@),
                None => self@.owner is None,
            },
    {
        match &self.owner {
            Some(o) => Some(o),
            None => None,
        }
    }

    /// Succeeds exactly when an owner is set and it is `address`.
    pub fn check_sender_is_owner(&self, address: &String) -> (r: Result<(), ContractError>)
        ensures
            match self@.owner {
                None => r matches Err(e) && not_found(e, "owner"@),
                Some(o) => if o == address@ {
                    r is Ok
                } else {
                    r == Err::<(), ContractError>(ContractError::Unauthorized)
                },
            },
    {
        match &self.owner {
            None => Err(ContractError::Std(StdError::NotFound { kind: String::from_str("owner") })),
            Some(o) => {
                if *o != *address {
                    return Err(ContractError::Unauthorized);
                }
                Ok(())
            },
        }
    }

    /// Makes `address` the owner.
    pub fn set_owner(&mut self, address: String)
        ensures
            final(self)@ == (ContextView { owner: Some(address@), ..old(self)@ }),
    {
        self.owner = Some(address);
    }

    /// Keeps the bytes that a reply with `id` will need.
    pub fn store_callback_data(&mut self, id: u64, data: Vec<u8>)
        ensures
            final(self)@ == (ContextView {
                store: crate::state::StoreView {
                    callback_data: old(self)@.store.callback_data.insert(id, data@),
                    ..old(self)@.store
                },
                ..old(self)@
            }),
    {
        self.store.callback_data.insert(id, data);
    }

    /// The bytes kept for reply `id`.
    pub fn get_callback_data(&self, id: u64) -> (r: Result<Vec<u8>, ContractError>)
        ensures
            match r {
                Ok(d) => self@.store.callback_data.contains_key(id) && d@
                    == self@.store.callback_data[id],
                Err(e) => !self@.store.callback_data.contains_key(id) && not_found(e, "callback data"@),
            },
    {
        match self.store.callback_data.get(&id) {
            Some(d) => Ok(crate::encoding::copy_bytes(d.as_slice())),
            None => Err(ContractError::Std(StdError::NotFound { kind: String::from_str("callback data") })),
        }
    }

    /// Forgets the bytes kept for reply `id`.
    pub fn clear_callback_data(&mut self, id: u64)
        ensures
            final(self)@ == (ContextView {
                store: crate::state::StoreView {
                    callback_data: old(self)@.store.callback_data.remove(id),
                    ..old(self)@.store
                },
                ..old(self)@
            }),
    {
        self.store.callback_data.remove(&id);
    }
}

} // verus!
