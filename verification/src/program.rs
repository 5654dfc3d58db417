//! The program: the one owner of the state and of the registry, which
//! lends them to a service for the length of a call.

use vstd::prelude::*;
use crate::model::RegistryView;
use crate::ping_service::{PingService, PingState};
use crate::query_service::QueryService;
use crate::registry::DelegationRegistry;
use crate::signless_service::SignlessService;

verus! {

/// The program. There is one for the lifetime of the process.
pub struct PingProgram {
    ping_state: PingState,
    signless_state: DelegationRegistry,
}

impl Default for PingProgram {
    /// The program as it starts.
    fn default() -> (program: Self)
        ensures
            program.state().recorded().is_zero(),
            program.registry()@ == RegistryView::empty(),
            program.registry()@.wf(),
    {
        PingProgram::new()
    }
}

impl PingProgram {
    /// The state that the program holds.
    pub closed spec fn state(&self) -> PingState {
        self.ping_state
    }

    /// The registry that the program holds.
    pub closed spec fn registry(&self) -> DelegationRegistry {
        self.signless_state
    }

    /// The program as it starts, whoever creates it: no command has
    /// succeeded yet, so the zero address is recorded, and the registry is
    /// empty.
    pub fn new() -> (program: Self)
        ensures
            program.state().recorded().is_zero(),
            program.registry()@ == RegistryView::empty(),
            program.registry()@.wf(),
    {
        let ping_state = PingState::default();
        let signless_state = DelegationRegistry::default();
        PingProgram { ping_state, signless_state }
    }

    /// Lends the state for writing and the registry for reading.
    pub fn ping_svc(&mut self) -> (service: PingService<'_>)
        ensures
            *service.lent_state() == old(self).state(),
            *service.registry() == old(self).registry(),
            final(self).registry() == old(self).registry(),
            *final(service.lent_state()) == final(self).state(),
            has_resolved(service) ==> *service.lent_state() == *final(service.lent_state()),
    {
        PingService::new(&mut self.ping_state, &self.signless_state)
    }

    /// Lends the registry for writing.
    pub fn signless_svc(&mut self) -> (service: SignlessService<'_>)
        ensures
            *service.lent_registry() == old(self).registry(),
            final(self).state() == old(self).state(),
            *final(service.lent_registry()) == final(self).registry(),
            has_resolved(service) ==> *service.lent_registry() == *final(service.lent_registry()),
    {
        SignlessService::new(&mut self.signless_state)
    }

    /// Lends the state and the registry for reading.
    pub fn query_svc(&self) -> (service: QueryService<'_>)
        ensures
            *service.ping_state_ref == self.state(),
            *service.signless_state_ref == self.registry(),
    {
        QueryService::new(&self.ping_state, &self.signless_state)
    }
}

} // verus!
