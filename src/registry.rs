//! The process-wide holder of the one vault manager: registered once, then
//! handed to every caller.

use vstd::prelude::*;

use crate::metadata::DatabaseError;
use crate::vault::{VaultError, VaultManager, VaultView};

verus! {

/// Holds at most one vault manager; a second registration is refused.
pub struct ManagerRegistry {
    manager: Option<VaultManager>,
}

impl View for ManagerRegistry {
    type V = Option<VaultView>;

    closed spec fn view(&self) -> Option<VaultView> {
        match self.manager {
            Some(m) => Some(m@),
            None => None,
        }
    }
}

impl ManagerRegistry {
    /// Whether the registered manager, if any, keeps its invariant.
    pub closed spec fn wf(&self) -> bool {
        match self.manager {
            Some(m) => m.wf(),
            None => true,
        }
    }

    /// An empty registry.
    pub fn new() -> (r: ManagerRegistry)
        ensures
            r@ is None,
            r.wf(),
    {
        ManagerRegistry { manager: None }
    }

    /// Registers the manager, unless one is registered already; the one in
    /// place is never replaced.
    pub fn register(&mut self, manager: VaultManager) -> (r: Result<(), VaultError>)
        requires
            old(self).wf(),
            manager.wf(),
        ensures
            final(self).wf(),
            old(self)@ is Some ==> r is Err && final(self)@ == old(self)@,
            old(self)@ is None ==> r is Ok && final(self)@ == Some(manager@),
            r is Err ==> r->Err_0 is Database && r->Err_0->Database_0 is InvalidConfig,
    {
        if self.manager.is_some() {
            return Err(
                VaultError::Database(
                    DatabaseError::InvalidConfig(String::from_str("Vault manager already initialized")),
                ),
            );
        }
        self.manager = Some(manager);
        Ok(())
    }

    /// The registered manager.
    pub fn get(&self) -> (r: Result<&VaultManager, VaultError>)
        requires
            self.wf(),
        ensures
            r is Ok <==> self@ is Some,
            r is Ok ==> self@ == Some(r->Ok_0@) && r->Ok_0.wf(),
            r is Err ==> r->Err_0 is Database && r->Err_0->Database_0 is InvalidConfig,
    {
        match &self.manager {
            Some(m) => Ok(m),
            None => Err(
                VaultError::Database(
                    DatabaseError::InvalidConfig(String::from_str("Vault manager not initialized")),
                ),
            ),
        }
    }

    /// The registered manager, for an operation that changes it.
    pub fn get_mut(&mut self) -> (r: Result<&mut VaultManager, VaultError>)
        requires
            old(self).wf(),
        ensures
            r is Ok <==> old(self)@ is Some,
            r is Ok ==> old(self)@ == Some(r->Ok_0@) && r->Ok_0.wf(),
            r is Ok ==> (final(r->Ok_0).wf() ==> final(self).wf()),
            r is Ok ==> final(self)@ == Some(final(r->Ok_0)@),
            r is Err ==> final(self)@ == old(self)@,
            r is Err ==> r->Err_0 is Database && r->Err_0->Database_0 is InvalidConfig,
    {
        match &mut self.manager {
            Some(m) => Ok(m),
            None => Err(
                VaultError::Database(
                    DatabaseError::InvalidConfig(String::from_str("Vault manager not initialized")),
                ),
            ),
        }
    }
}

} // verus!
