//! The router: module identifier to the address of the module's contract.
use vstd::prelude::*;

use crate::context::{ContextView, CwIbcCoreContext};
use crate::error::{decode_error, ContractError};
use crate::store::StoreMap;
use crate::types::ModuleId;

verus! {

/// Module identifier to contract address.
pub struct CwIbcRouter(pub StoreMap<ModuleId, String>);

impl View for CwIbcRouter {
    type V = Map<Seq<char>, Seq<char>>;

    open spec fn view(&self) -> Map<Seq<char>, Seq<char>> {
        self.0@
    }
}

impl CwIbcRouter {
    /// A router with no routes.
    pub fn new() -> (r: CwIbcRouter)
        ensures
            r@.is_empty(),
    {
        CwIbcRouter(StoreMap::new())
    }
}

impl CwIbcCoreContext {
    /// Routes `module_id` to `module`.
    pub fn add_route(&mut self, module_id: ModuleId, module: &String) -> (r: Result<(), ContractError>)
        ensures
            r is Ok,
            final(self)@ == (ContextView {
                router: old(self)@.router.insert(module_id@, module@),
                ..old(self)@
            }),
    {
        self.router.0.insert(module_id, module.clone());
        Ok(())
    }

    /// The address that `module_id` is routed to.
    pub fn get_route(&self, module_id: &ModuleId) -> (r: Result<String, ContractError>)
        ensures
            match r {
                Ok(a) => self@.router.contains_key(module_id@) && a@ == self@.router[module_id@],
                Err(e) => !self@.router.contains_key(module_id@) && decode_error(e, "Module Id Not Found"@),
            },
    {
        match self.router.0.get(module_id) {
            Some(a) => Ok(a.clone()),
            None => Err(ContractError::IbcDecodeError { error: String::from_str("Module Id Not Found") }),
        }
    }

    /// Whether `module_id` has a route.
    pub fn has_route(&self, module_id: &ModuleId) -> (r: bool)
        ensures
            r == self@.router.contains_key(module_id@),
    {
        self.router.0.contains_key(module_id)
    }
}

} // verus!
