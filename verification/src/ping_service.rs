//! The ping and pong commands, in their direct and their delegated forms.

use vstd::prelude::*;
use crate::errors::AuthError;
use crate::identity::{AddressBytes, CallerIdentity, OwnerView};
use crate::registry::DelegationRegistry;

verus! {

/// The identity on whose behalf a command last succeeded. A state starts
/// with the zero address, and only a command that goes through writes it.
#[derive(Clone, Copy, Debug)]
pub struct PingState {
    last_effective_caller: AddressBytes,
}

impl PingState {
    /// The identity that the state records.
    pub closed spec fn recorded(&self) -> AddressBytes {
        self.last_effective_caller
    }

    /// The identity that the state records.
    pub fn last_effective_caller(&self) -> (address: AddressBytes)
        ensures
            address == self.recorded(),
    {
        self.last_effective_caller
    }
}

impl Default for PingState {
    /// The state before any command: the zero address is recorded.
    fn default() -> (state: Self)
        ensures
            state.recorded().is_zero(),
    {
        PingState { last_effective_caller: AddressBytes::zero() }
    }
}

/// What a command answers.
#[derive(Clone, Copy, Debug, PartialEq, Eq, Structural)]
pub enum PingEvent {
    Ping,
    Pong,
    SignlessError(AuthError),
}

/// The answer to a delegated command: `label` if the caller was let
/// through, the reason why not otherwise.
pub open spec fn gated_reply(verdict: Result<(), AuthError>, label: PingEvent) -> PingEvent {
    match verdict {
        Ok(_) => label,
        Err(reason) => PingEvent::SignlessError(reason),
    }
}

/// The identity recorded after a delegated command: `effective` if the
/// caller was let through, and what was recorded before if not.
pub open spec fn gated_caller(
    verdict: Result<(), AuthError>,
    before: AddressBytes,
    effective: AddressBytes,
) -> AddressBytes {
    match verdict {
        Ok(_) => effective,
        Err(_) => before,
    }
}

/// The handler of the commands of one call. It holds the state for
/// writing and the registry for reading, and nothing but its commands
/// reaches either. A command leaves both borrows in place: once the
/// service is no longer used, the lender of the state finds in it what the
/// last command wrote.
pub struct PingService<'a> {
    ping_state: &'a mut PingState,
    signless_state_ref: &'a DelegationRegistry,
}

impl<'a> PingService<'a> {
    /// The borrow of the state that the service holds.
    pub closed spec fn lent_state(self) -> &'a mut PingState {
        self.ping_state
    }

    /// The registry that the service reads.
    pub closed spec fn registry(self) -> &'a DelegationRegistry {
        self.signless_state_ref
    }

    /// A service on the given borrows.
    pub fn new(
        ping_state: &'a mut PingState,
        signless_state_ref: &'a DelegationRegistry,
    ) -> (service: Self)
        ensures
            *service.lent_state() == *old(ping_state),
            service.registry() == signless_state_ref,
            *final(service.lent_state()) == *final(ping_state),
            has_resolved(service) ==> *service.lent_state() == *final(service.lent_state()),
    {
        PingService { ping_state, signless_state_ref }
    }

    /// The caller pings for itself.
    pub fn ping(&mut self, caller: CallerIdentity) -> (event: PingEvent)
        ensures
            event == PingEvent::Pong,
            final(self).lent_state().recorded() == caller,
            final(self).registry() == old(self).registry(),
            *final(final(self).lent_state()) == *final(old(self).lent_state()),
            has_resolved(*final(self))
                ==> *final(self).lent_state() == *final(final(self).lent_state()),
    {
        self.handle_ping(caller)
    }

    /// The caller pings for the native owner `user_address`. On success
    /// the owner is recorded.
    pub fn ping_signless(
        &mut self,
        caller: CallerIdentity,
        user_address: AddressBytes,
    ) -> (event: PingEvent)
        ensures
            event == gated_reply(
                old(self).registry()@.authorize(caller, OwnerView::Native(user_address)),
                PingEvent::Pong,
            ),
            final(self).lent_state().recorded() == gated_caller(
                old(self).registry()@.authorize(caller, OwnerView::Native(user_address)),
                old(self).lent_state().recorded(),
                user_address,
            ),
            event is SignlessError ==> *final(self).lent_state() == *old(self).lent_state(),
            final(self).registry() == old(self).registry(),
            *final(final(self).lent_state()) == *final(old(self).lent_state()),
            has_resolved(*final(self))
                ==> *final(self).lent_state() == *final(final(self).lent_state()),
    {
        if let Err(signless_error) = self.signless_state_ref.authorize_for_native_owner(
            caller,
            user_address,
        ) {
            return PingEvent::SignlessError(signless_error);
        }
        self.handle_ping(user_address)
    }

    /// The caller pings for the owner named `no_wallet_name_encoded`. On
    /// success the caller itself is recorded.
    pub fn ping_no_wallet(
        &mut self,
        caller: CallerIdentity,
        no_wallet_name_encoded: String,
    ) -> (event: PingEvent)
        ensures
            event == gated_reply(
                old(self).registry()@.authorize(
                    caller,
                    OwnerView::Named(no_wallet_name_encoded@),
                ),
                PingEvent::Pong,
            ),
            final(self).lent_state().recorded() == gated_caller(
                old(self).registry()@.authorize(
                    caller,
                    OwnerView::Named(no_wallet_name_encoded@),
                ),
                old(self).lent_state().recorded(),
                caller,
            ),
            event is SignlessError ==> *final(self).lent_state() == *old(self).lent_state(),
            final(self).registry() == old(self).registry(),
            *final(final(self).lent_state()) == *final(old(self).lent_state()),
            has_resolved(*final(self))
                ==> *final(self).lent_state() == *final(final(self).lent_state()),
    {
        if let Err(signless_error) = self.signless_state_ref.authorize_for_named_owner(
            caller,
            no_wallet_name_encoded,
        ) {
            return PingEvent::SignlessError(signless_error);
        }
        self.handle_ping(caller)
    }

    /// The caller pongs for itself.
    pub fn pong(&mut self, caller: CallerIdentity) -> (event: PingEvent)
        ensures
            event == PingEvent::Ping,
            final(self).lent_state().recorded() == caller,
            final(self).registry() == old(self).registry(),
            *final(final(self).lent_state()) == *final(old(self).lent_state()),
            has_resolved(*final(self))
                ==> *final(self).lent_state() == *final(final(self).lent_state()),
    {
        self.handle_pong(caller)
    }

    /// The caller pongs for the native owner `user_address`. On success
    /// the owner is recorded.
    pub fn pong_signless(
        &mut self,
        caller: CallerIdentity,
        user_address: AddressBytes,
    ) -> (event: PingEvent)
        ensures
            event == gated_reply(
                old(self).registry()@.authorize(caller, OwnerView::Native(user_address)),
                PingEvent::Ping,
            ),
            final(self).lent_state().recorded() == gated_caller(
                old(self).registry()@.authorize(caller, OwnerView::Native(user_address)),
                old(self).lent_state().recorded(),
                user_address,
            ),
            event is SignlessError ==> *final(self).lent_state() == *old(self).lent_state(),
            final(self).registry() == old(self).registry(),
            *final(final(self).lent_state()) == *final(old(self).lent_state()),
            has_resolved(*final(self))
                ==> *final(self).lent_state() == *final(final(self).lent_state()),
    {
        if let Err(signless_error) = self.signless_state_ref.authorize_for_native_owner(
            caller,
            user_address,
        ) {
            return PingEvent::SignlessError(signless_error);
        }
        self.handle_pong(user_address)
    }

    /// The caller pongs for the owner named `no_wallet_name_encoded`. On
    /// success the caller itself is recorded.
    pub fn pong_no_wallet(
        &mut self,
        caller: CallerIdentity,
        no_wallet_name_encoded: String,
    ) -> (event: PingEvent)
        ensures
            event == gated_reply(
                old(self).registry()@.authorize(
                    caller,
                    OwnerView::Named(no_wallet_name_encoded@),
                ),
                PingEvent::Ping,
            ),
            final(self).lent_state().recorded() == gated_caller(
                old(self).registry()@.authorize(
                    caller,
                    OwnerView::Named(no_wallet_name_encoded@),
                ),
                old(self).lent_state().recorded(),
                caller,
            ),
            event is SignlessError ==> *final(self).lent_state() == *old(self).lent_state(),
            final(self).registry() == old(self).registry(),
            *final(final(self).lent_state()) == *final(old(self).lent_state()),
            has_resolved(*final(self))
                ==> *final(self).lent_state() == *final(final(self).lent_state()),
    {
        if let Err(signless_error) = self.signless_state_ref.authorize_for_named_owner(
            caller,
            no_wallet_name_encoded,
        ) {
            return PingEvent::SignlessError(signless_error);
        }
        self.handle_pong(caller)
    }

    /// Records `caller` and answers a ping.
    fn handle_ping(&mut self, caller: AddressBytes) -> (event: PingEvent)
        ensures
            event == PingEvent::Pong,
            final(self).lent_state().recorded() == caller,
            final(self).registry() == old(self).registry(),
            *final(final(self).lent_state()) == *final(old(self).lent_state()),
            has_resolved(*final(self))
                ==> *final(self).lent_state() == *final(final(self).lent_state()),
    {
        self.ping_state.last_effective_caller = caller;
        PingEvent::Pong
    }

    /// Records `caller` and answers a pong.
    fn handle_pong(&mut self, caller: AddressBytes) -> (event: PingEvent)
        ensures
            event == PingEvent::Ping,
            final(self).lent_state().recorded() == caller,
            final(self).registry() == old(self).registry(),
            *final(final(self).lent_state()) == *final(old(self).lent_state()),
            has_resolved(*final(self))
                ==> *final(self).lent_state() == *final(final(self).lent_state()),
    {
        self.ping_state.last_effective_caller = caller;
        PingEvent::Ping
    }
}

} // verus!
