//! What holds of the library as a whole, proved over the model that the
//! contracts of the operations are written in.

use vstd::prelude::*;
use crate::errors::AuthError;
use crate::identity::{AddressBytes, OwnerView};
use crate::model::RegistryView;
use crate::ping_service::{gated_caller, gated_reply, PingEvent};
use crate::record::RecordView;

verus! {

/// A change that can be asked of a registry.
pub enum RegistryCommand {
    Register { owner: OwnerView, delegate: AddressBytes, record: RecordView },
    Revoke { owner: OwnerView },
}

/// The registry after `command` was asked of `registry`: changed if the
/// command was accepted, the same if it was refused.
pub open spec fn after(registry: RegistryView, command: RegistryCommand) -> RegistryView {
    match command {
        RegistryCommand::Register { owner, delegate, record } => match registry.register(
            owner,
            delegate,
            record,
        ) {
            Ok(changed) => changed,
            Err(_) => registry,
        },
        RegistryCommand::Revoke { owner } => match registry.revoke(owner) {
            Ok(changed) => changed,
            Err(_) => registry,
        },
    }
}

/// The registry that an empty one becomes when `commands` are asked of it
/// in turn.
pub open spec fn reached(commands: Seq<RegistryCommand>) -> RegistryView
    decreases commands.len(),
{
    if commands.len() == 0 {
        RegistryView::empty()
    } else {
        after(reached(commands.drop_last()), commands.last())
    }
}

/// Whatever is asked of a registry that keeps the rules, it keeps them.
pub proof fn law_commands_keep_rules(registry: RegistryView, command: RegistryCommand)
    requires
        registry.wf(),
    ensures
        after(registry, command).wf(),
{
    match command {
        RegistryCommand::Register { owner, delegate, record } => {
            if !registry.bound_to_other(owner, delegate) {
                registry.lemma_bind_wf(owner, delegate, record);
            }
        },
        RegistryCommand::Revoke { owner } => {
            registry.lemma_unbind_wf(owner);
        },
    }
}

/// Every registry that can be reached keeps the rules.
pub proof fn law_reached_keeps_rules(commands: Seq<RegistryCommand>)
    ensures
        reached(commands).wf(),
    decreases commands.len(),
{
    if commands.len() == 0 {
        RegistryView::lemma_empty_wf();
    } else {
        law_reached_keeps_rules(commands.drop_last());
        law_commands_keep_rules(reached(commands.drop_last()), commands.last());
    }
}

/// Uniqueness: after any sequence of registrations and revocations, no
/// delegate is on file for two distinct owners, of either kind.
pub proof fn law_delegate_serves_one_owner(
    commands: Seq<RegistryCommand>,
    delegate: AddressBytes,
    a: OwnerView,
    b: OwnerView,
)
    requires
        reached(commands).delegate_of(a) == Some(delegate),
        reached(commands).delegate_of(b) == Some(delegate),
    ensures
        a == b,
{
    law_reached_keeps_rules(commands);
    assert(reached(commands).serves(delegate, a) && reached(commands).serves(delegate, b));
}

/// No orphans: after any sequence of registrations and revocations, the
/// delegates that have a record are exactly the values of the two owner
/// maps.
pub proof fn law_records_match_delegates(commands: Seq<RegistryCommand>)
    ensures
        reached(commands).record_by_delegate.dom() == reached(
            commands,
        ).delegate_by_native_owner.values().union(
            reached(commands).delegate_by_named_owner.values(),
        ),
{
    law_reached_keeps_rules(commands);
    reached(commands).lemma_records_match_values();
}

/// Authorization: the authorization check lets `caller` through for `owner` exactly when
/// `caller` is the delegate on file for `owner`. It answers `NotRegistered`
/// exactly when no delegate is on file, and `CallerMismatch` exactly when
/// one is and it is not `caller`.
pub proof fn law_authorization(registry: RegistryView, caller: AddressBytes, owner: OwnerView)
    ensures
        registry.authorize(caller, owner) is Ok <==> registry.delegate_of(owner) == Some(caller),
        registry.authorize(caller, owner) == Err::<(), AuthError>(AuthError::NotRegistered)
            <==> registry.delegate_of(owner) is None,
        registry.authorize(caller, owner) == Err::<(), AuthError>(AuthError::CallerMismatch)
            <==> registry.delegate_of(owner) is Some && registry.delegate_of(owner) != Some(
            caller,
        ),
{
}

/// A delegated command whose caller is turned away leaves recorded what
/// was recorded, and answers with the reason.
pub proof fn law_refused_command_changes_nothing(
    verdict: Result<(), AuthError>,
    label: PingEvent,
    before: AddressBytes,
    effective: AddressBytes,
)
    requires
        verdict is Err,
    ensures
        gated_caller(verdict, before, effective) == before,
        gated_reply(verdict, label) == PingEvent::SignlessError(verdict->Err_0),
{
}

} // verus!
