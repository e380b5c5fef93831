//! Messages of the contract that the library defines.
use vstd::prelude::*;

verus! {

/// A migration of the contract; `clear_store` wipes its storage.
#[derive(Debug, Clone, Copy, PartialEq, Eq, Structural)]
pub struct MigrateMsg {
    pub clear_store: bool,
}

} // verus!
