use signless_gate::errors::{AuthError, RegistrationError};
use signless_gate::identity::{AddressBytes, OwnerIdentity};
use signless_gate::ping_service::{PingEvent, PingService, PingState};
use signless_gate::program::PingProgram;
use signless_gate::query_service::QueryEvent;
use signless_gate::record::SignlessAccountRecord;
use signless_gate::registry::DelegationRegistry;
use signless_gate::signless_service::SignlessService;

fn address(seed: u8) -> AddressBytes {
    AddressBytes::new([seed; 32])
}

fn record_for(owner: OwnerIdentity, tag: u8) -> SignlessAccountRecord {
    SignlessAccountRecord { owner, metadata: vec![tag, tag, tag] }
}

fn last_caller(program: &PingProgram) -> AddressBytes {
    match program.query_svc().last_who_call() {
        QueryEvent::LastWhoCall(address) => address,
        other => panic!("unexpected answer {:?}", other),
    }
}

#[test]
fn delegated_ping_on_empty_registry_is_not_registered() {
    let x = address(1);
    let y = address(2);
    let mut program = PingProgram::new();

    let event = program.ping_svc().ping_signless(y, x);

    assert_eq!(event, PingEvent::SignlessError(AuthError::NotRegistered));
    assert_eq!(last_caller(&program), AddressBytes::zero());
}

#[test]
fn registered_delegate_pings_for_native_owner() {
    let x = address(1);
    let y = address(2);
    let mut program = PingProgram::new();
    let record = record_for(OwnerIdentity::Native(x), 7);

    let outcome = program.signless_svc().register_for_native_owner(x, y, record);
    assert_eq!(outcome, Ok(()));

    let event = program.ping_svc().ping_signless(y, x);
    assert_eq!(event, PingEvent::Pong);
    assert_eq!(last_caller(&program), x);
}

#[test]
fn stranger_is_turned_away_with_caller_mismatch() {
    let x = address(1);
    let y = address(2);
    let z = address(3);
    let mut program = PingProgram::new();
    let record = record_for(OwnerIdentity::Native(x), 7);
    assert_eq!(program.signless_svc().register_for_native_owner(x, y, record), Ok(()));
    assert_eq!(program.ping_svc().ping_signless(y, x), PingEvent::Pong);

    let event = program.ping_svc().pong_signless(z, x);

    assert_eq!(event, PingEvent::SignlessError(AuthError::CallerMismatch));
    assert_eq!(last_caller(&program), x);
}

#[test]
fn named_owner_command_records_the_delegate() {
    let d = address(4);
    let mut program = PingProgram::new();
    let record = record_for(OwnerIdentity::Named(String::from("alice")), 5);
    let outcome =
        program.signless_svc().register_for_named_owner(String::from("alice"), d, record);
    assert_eq!(outcome, Ok(()));

    let event = program.ping_svc().ping_no_wallet(d, String::from("alice"));

    assert_eq!(event, PingEvent::Pong);
    assert_eq!(last_caller(&program), d);
}

#[test]
fn bound_delegate_is_refused_for_a_second_owner() {
    let x = address(1);
    let x2 = address(11);
    let y = address(2);
    let mut program = PingProgram::new();
    let record = record_for(OwnerIdentity::Native(x), 7);
    assert_eq!(program.signless_svc().register_for_native_owner(x, y, record.clone()), Ok(()));

    let outcome = program.signless_svc().register_for_native_owner(
        x2,
        y,
        record_for(OwnerIdentity::Native(x2), 8),
    );

    assert_eq!(outcome, Err(RegistrationError::DelegateAlreadyBound));
    let queries = program.query_svc();
    assert_eq!(
        queries.signless_address_from_user_address(x),
        QueryEvent::SignlessAccountAddress(Some(y))
    );
    assert_eq!(
        queries.signless_address_from_user_address(x2),
        QueryEvent::SignlessAccountAddress(None)
    );
    assert_eq!(queries.signless_account_data(y), QueryEvent::SignlessAccountData(Some(record)));
}

#[test]
fn direct_ping_answers_pong_and_records_the_caller() {
    let c = address(6);
    let mut program = PingProgram::new();
    assert_eq!(program.ping_svc().ping(c), PingEvent::Pong);
    assert_eq!(last_caller(&program), c);
}

#[test]
fn direct_pong_answers_ping_and_records_the_caller() {
    let c = address(6);
    let mut program = PingProgram::new();
    assert_eq!(program.ping_svc().pong(c), PingEvent::Ping);
    assert_eq!(last_caller(&program), c);
}

#[test]
fn labels_do_not_depend_on_what_came_before() {
    let x = address(1);
    let y = address(2);
    let z = address(3);
    let mut program = PingProgram::new();
    for round in 0..3u8 {
        assert_eq!(program.ping_svc().ping(address(round)), PingEvent::Pong);
        assert_eq!(program.ping_svc().ping(address(round)), PingEvent::Pong);
        assert_eq!(program.ping_svc().pong(address(round)), PingEvent::Ping);
        assert_eq!(
            program.ping_svc().ping_signless(z, x),
            PingEvent::SignlessError(if round == 0 {
                AuthError::NotRegistered
            } else {
                AuthError::CallerMismatch
            })
        );
        let record = record_for(OwnerIdentity::Native(x), round);
        assert_eq!(program.signless_svc().register_for_native_owner(x, y, record), Ok(()));
        assert_eq!(program.ping_svc().pong_signless(y, x), PingEvent::Ping);
        assert_eq!(program.ping_svc().pong(address(round)), PingEvent::Ping);
        assert_eq!(program.ping_svc().ping(address(round)), PingEvent::Pong);
    }
}

#[test]
fn every_refused_command_leaves_the_state_alone() {
    let x = address(1);
    let y = address(2);
    let z = address(3);
    let marker = address(77);
    let mut program = PingProgram::new();
    let mut services = program.signless_svc();
    assert_eq!(
        services.register_for_native_owner(x, y, record_for(OwnerIdentity::Native(x), 1)),
        Ok(())
    );
    assert_eq!(
        services.register_for_named_owner(
            String::from("bob"),
            z,
            record_for(OwnerIdentity::Named(String::from("bob")), 2)
        ),
        Ok(())
    );
    assert_eq!(program.ping_svc().ping(marker), PingEvent::Pong);

    let refused = [
        program.ping_svc().ping_signless(z, x),
        program.ping_svc().pong_signless(z, x),
        program.ping_svc().ping_no_wallet(y, String::from("bob")),
        program.ping_svc().pong_no_wallet(y, String::from("bob")),
    ];
    for event in refused {
        assert_eq!(event, PingEvent::SignlessError(AuthError::CallerMismatch));
    }
    assert_eq!(last_caller(&program), marker);

    let unknown = [
        program.ping_svc().ping_signless(y, address(50)),
        program.ping_svc().pong_signless(y, address(50)),
        program.ping_svc().ping_no_wallet(z, String::from("carol")),
        program.ping_svc().pong_no_wallet(z, String::from("carol")),
    ];
    for event in unknown {
        assert_eq!(event, PingEvent::SignlessError(AuthError::NotRegistered));
    }
    assert_eq!(last_caller(&program), marker);
}

#[test]
fn delegated_pong_for_native_owner_records_the_owner() {
    let x = address(1);
    let y = address(2);
    let mut program = PingProgram::new();
    assert_eq!(
        program.signless_svc().register_for_native_owner(
            x,
            y,
            record_for(OwnerIdentity::Native(x), 1)
        ),
        Ok(())
    );
    assert_eq!(program.ping_svc().pong_signless(y, x), PingEvent::Ping);
    assert_eq!(last_caller(&program), x);
}

#[test]
fn delegated_pong_for_named_owner_records_the_caller() {
    let d = address(4);
    let mut program = PingProgram::new();
    assert_eq!(
        program.signless_svc().register_for_named_owner(
            String::from("alice"),
            d,
            record_for(OwnerIdentity::Named(String::from("alice")), 1)
        ),
        Ok(())
    );
    assert_eq!(program.ping_svc().pong_no_wallet(d, String::from("alice")), PingEvent::Ping);
    assert_eq!(last_caller(&program), d);
}

#[test]
fn revoked_delegate_is_no_longer_let_through() {
    let x = address(1);
    let y = address(2);
    let mut program = PingProgram::new();
    assert_eq!(
        program.signless_svc().register_for_native_owner(
            x,
            y,
            record_for(OwnerIdentity::Native(x), 1)
        ),
        Ok(())
    );
    assert_eq!(program.ping_svc().ping_signless(y, x), PingEvent::Pong);
    assert_eq!(program.signless_svc().revoke(OwnerIdentity::Native(x)), Ok(()));
    assert_eq!(program.ping_svc().ping(address(5)), PingEvent::Pong);

    let event = program.ping_svc().ping_signless(y, x);

    assert_eq!(event, PingEvent::SignlessError(AuthError::NotRegistered));
    assert_eq!(last_caller(&program), address(5));
}

#[test]
fn service_writes_through_to_the_borrowed_state() {
    let mut state = PingState::default();
    let registry = DelegationRegistry::new();
    {
        let mut service = PingService::new(&mut state, &registry);
        assert_eq!(service.ping(address(2)), PingEvent::Pong);
        assert_eq!(
            service.ping_signless(address(3), address(4)),
            PingEvent::SignlessError(AuthError::NotRegistered)
        );
    }
    assert_eq!(state.last_effective_caller(), address(2));
}

#[test]
fn service_writes_through_to_the_borrowed_registry() {
    let mut registry = DelegationRegistry::new();
    {
        let mut service = SignlessService::new(&mut registry);
        assert_eq!(
            service.register_for_native_owner(
                address(1),
                address(2),
                record_for(OwnerIdentity::Native(address(1)), 1)
            ),
            Ok(())
        );
        assert_eq!(
            service.revoke(OwnerIdentity::Native(address(3))),
            Err(RegistrationError::NotRegistered)
        );
    }
    assert_eq!(registry.delegate_of(&OwnerIdentity::Native(address(1))), Some(address(2)));
}

#[test]
fn program_starts_with_the_zero_address_recorded() {
    let program = PingProgram::new();
    assert_eq!(last_caller(&program), AddressBytes::new([0u8; 32]));
    assert_eq!(
        program.query_svc().signless_address_from_user_address(address(42)),
        QueryEvent::SignlessAccountAddress(None)
    );
    assert_eq!(
        program.query_svc().signless_account_data(AddressBytes::zero()),
        QueryEvent::SignlessAccountData(None)
    );
}

#[test]
fn default_program_is_the_program_as_it_starts() {
    let program = PingProgram::default();
    assert_eq!(last_caller(&program), AddressBytes::zero());
    assert_eq!(
        program.query_svc().signless_address_from_user_address(AddressBytes::zero()),
        QueryEvent::SignlessAccountAddress(None)
    );
    assert_eq!(PingState::default().last_effective_caller().bytes, [0u8; 32]);
}
