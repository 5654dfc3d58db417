//! The queries: they read the state and the registry and change nothing.

use vstd::prelude::*;
use vstd::std_specs::cmp::PartialEqSpecImpl;
use crate::identity::{AddressBytes, DelegateIdentity, OwnerIdentity, OwnerView};
use crate::ping_service::PingState;
use crate::record::{view_of, RecordView, SignlessAccountRecord};
use crate::registry::DelegationRegistry;

verus! {

/// What a query answers.
#[derive(Debug, Eq)]
pub enum QueryEvent {
    LastWhoCall(AddressBytes),
    SignlessAccountAddress(Option<DelegateIdentity>),
    SignlessAccountData(Option<SignlessAccountRecord>),
}

/// What a `QueryEvent` holds.
pub enum QueryEventView {
    LastWhoCall(AddressBytes),
    SignlessAccountAddress(Option<AddressBytes>),
    SignlessAccountData(Option<RecordView>),
}

impl View for QueryEvent {
    type V = QueryEventView;

    open spec fn view(&self) -> QueryEventView {
        match self {
            QueryEvent::LastWhoCall(address) => QueryEventView::LastWhoCall(*address),
            QueryEvent::SignlessAccountAddress(delegate) => QueryEventView::SignlessAccountAddress(
                *delegate,
            ),
            QueryEvent::SignlessAccountData(record) => QueryEventView::SignlessAccountData(
                view_of(*record),
            ),
        }
    }
}

impl Clone for QueryEvent {
    fn clone(&self) -> (copy: Self)
        ensures
            copy@ == self@,
    {
        match self {
            QueryEvent::LastWhoCall(address) => QueryEvent::LastWhoCall(*address),
            QueryEvent::SignlessAccountAddress(delegate) => QueryEvent::SignlessAccountAddress(
                *delegate,
            ),
            QueryEvent::SignlessAccountData(record) => QueryEvent::SignlessAccountData(
                match record {
                    Some(data) => Some(data.clone()),
                    None => None,
                },
            ),
        }
    }
}

impl PartialEq for QueryEvent {
    fn eq(&self, other: &Self) -> (same: bool) {
        match (self, other) {
            (QueryEvent::LastWhoCall(a), QueryEvent::LastWhoCall(b)) => *a == *b,
            (QueryEvent::SignlessAccountAddress(a), QueryEvent::SignlessAccountAddress(b)) => {
                match (a, b) {
                    (Some(x), Some(y)) => *x == *y,
                    (None, None) => true,
                    _ => false,
                }
            },
            (QueryEvent::SignlessAccountData(a), QueryEvent::SignlessAccountData(b)) => {
                match (a, b) {
                    (Some(x), Some(y)) => *x == *y,
                    (None, None) => true,
                    _ => false,
                }
            },
            _ => false,
        }
    }
}

impl PartialEqSpecImpl for QueryEvent {
    open spec fn obeys_eq_spec() -> bool {
        true
    }

    open spec fn eq_spec(&self, other: &Self) -> bool {
        self@ == other@
    }
}

/// The handler of the queries of one call. It holds the state and the
/// registry for reading. The registry that a query reads keeps the rules
/// `RegistryView::wf`, as every registry does.
pub struct QueryService<'a> {
    pub ping_state_ref: &'a PingState,
    pub signless_state_ref: &'a DelegationRegistry,
}

impl<'a> QueryService<'a> {
    /// A service on the given borrows.
    pub fn new(
        ping_state_ref: &'a PingState,
        signless_state_ref: &'a DelegationRegistry,
    ) -> (service: Self)
        ensures
            service.ping_state_ref == ping_state_ref,
            service.signless_state_ref == signless_state_ref,
    {
        QueryService { ping_state_ref, signless_state_ref }
    }

    /// The identity on whose behalf a command last succeeded.
    pub fn last_who_call(&self) -> (event: QueryEvent)
        ensures
            event == QueryEvent::LastWhoCall(self.ping_state_ref.recorded()),
    {
        QueryEvent::LastWhoCall(self.ping_state_ref.last_effective_caller())
    }

    /// The delegate on file for the native owner `user_address`.
    pub fn signless_address_from_user_address(
        &self,
        user_address: AddressBytes,
    ) -> (event: QueryEvent)
        ensures
            event == QueryEvent::SignlessAccountAddress(
                self.signless_state_ref@.delegate_of(OwnerView::Native(user_address)),
            ),
            self.signless_state_ref@.wf(),
    {
        let signless_address = self.signless_state_ref.delegate_of(
            &OwnerIdentity::Native(user_address),
        );
        QueryEvent::SignlessAccountAddress(signless_address)
    }

    /// The delegate on file for the owner named `no_wallet_account`.
    pub fn signless_address_from_no_wallet_account(
        &self,
        no_wallet_account: String,
    ) -> (event: QueryEvent)
        ensures
            event == QueryEvent::SignlessAccountAddress(
                self.signless_state_ref@.delegate_of(OwnerView::Named(no_wallet_account@)),
            ),
            self.signless_state_ref@.wf(),
    {
        let signless_address = self.signless_state_ref.delegate_of(
            &OwnerIdentity::Named(no_wallet_account),
        );
        QueryEvent::SignlessAccountAddress(signless_address)
    }

    /// A copy of the record on file for the delegate `signless_address`.
    pub fn signless_account_data(&self, signless_address: DelegateIdentity) -> (event: QueryEvent)
        ensures
            event@ == QueryEventView::SignlessAccountData(
                self.signless_state_ref@.record_of(signless_address),
            ),
            self.signless_state_ref@.wf(),
    {
        let signless_data = self.signless_state_ref.record_of(&signless_address);
        QueryEvent::SignlessAccountData(signless_data)
    }
}

} // verus!
