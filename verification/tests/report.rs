use wasm_sandbox::error::SandboxError;
use wasm_sandbox::executor::{classify, instantiation_outcome};
use wasmtime::{Error, Trap};
use wasm_sandbox::report::{fuel_consumed, nanos_to_u64, settle, CallOutcome, ExectionReport};

#[test]
fn fuel_consumed_is_budget_less_remaining() {
    assert_eq!(fuel_consumed(10000, Some(9996)), 4);
    assert_eq!(fuel_consumed(10000, Some(10000)), 0);
    assert_eq!(fuel_consumed(10000, Some(0)), 10000);
    assert_eq!(fuel_consumed(u64::MAX, Some(1)), u64::MAX - 1);
    assert_eq!(fuel_consumed(0, Some(0)), 0);
}

#[test]
fn unknown_remaining_fuel_counts_as_none_left() {
    assert_eq!(fuel_consumed(10000, None), 10000);
    assert_eq!(fuel_consumed(0, None), 0);
}

#[test]
fn more_left_than_given_counts_as_nothing_used() {
    assert_eq!(fuel_consumed(10, Some(11)), 0);
    assert_eq!(fuel_consumed(0, Some(u64::MAX)), 0);
}

#[test]
fn nanoseconds_keep_their_low_64_bits() {
    assert_eq!(nanos_to_u64(0), 0);
    assert_eq!(nanos_to_u64(1234567), 1234567);
    assert_eq!(nanos_to_u64(u64::MAX as u128), u64::MAX);
    assert_eq!(nanos_to_u64(u64::MAX as u128 + 1), 0);
    assert_eq!(nanos_to_u64((1u128 << 64) + 5), 5);
    assert_eq!(nanos_to_u64(u128::MAX), u64::MAX);
}

#[test]
fn a_clean_return_is_reported() {
    let outcome = settle(CallOutcome::Returned(Some(15)), false, Some(9996), 10485760, 10000, 2500);
    assert_eq!(
        outcome,
        Ok(ExectionReport { result: 15, fuel_consumed: 4, memory_consumed: 10485760, time_consumed: 2500 })
    );
}

#[test]
fn a_refused_growth_fails_whatever_the_call_did() {
    for call in [
        CallOutcome::Returned(Some(-1)),
        CallOutcome::Returned(None),
        CallOutcome::OutOfFuel,
        CallOutcome::Trapped,
    ] {
        assert_eq!(
            settle(call, true, Some(5), 100, 10, 1),
            Err(SandboxError::ResourceLimitExceeded)
        );
    }
}

#[test]
fn each_way_a_call_ends_has_its_error() {
    assert_eq!(
        settle(CallOutcome::OutOfFuel, false, Some(0), 100, 10, 1),
        Err(SandboxError::FuelExhausted)
    );
    assert_eq!(
        settle(CallOutcome::Trapped, false, Some(3), 100, 10, 1),
        Err(SandboxError::GuestTrap)
    );
    assert_eq!(
        settle(CallOutcome::Returned(None), false, Some(3), 100, 10, 1),
        Err(SandboxError::ResultType)
    );
}

#[test]
fn the_time_changes_nothing_but_the_time() {
    let fast = settle(CallOutcome::Returned(Some(7)), false, Some(40), 64, 100, 10).unwrap();
    let slow = settle(CallOutcome::Returned(Some(7)), false, Some(40), 64, 100, 99999).unwrap();
    assert_eq!(fast.result, slow.result);
    assert_eq!(fast.fuel_consumed, 60);
    assert_eq!(slow.fuel_consumed, 60);
    assert_eq!(fast.memory_consumed, slow.memory_consumed);
    assert_eq!(fast.time_consumed, 10);
    assert_eq!(slow.time_consumed, 99999);
}

#[test]
fn reports_compare_by_value() {
    let a = ExectionReport { result: 1, fuel_consumed: 2, memory_consumed: 3, time_consumed: 4 };
    let b = ExectionReport { result: 1, fuel_consumed: 2, memory_consumed: 3, time_consumed: 4 };
    let c = ExectionReport { result: 1, fuel_consumed: 2, memory_consumed: 3, time_consumed: 5 };
    assert_eq!(a, b);
    assert_ne!(a, c);
}

#[test]
fn a_refusal_fails_an_instantiation_however_it_ended() {
    assert_eq!(instantiation_outcome(Ok(7u8), true), Err(SandboxError::ResourceLimitExceeded));
    assert_eq!(
        instantiation_outcome::<u8>(Err(true), true),
        Err(SandboxError::ResourceLimitExceeded)
    );
    assert_eq!(
        instantiation_outcome::<u8>(Err(false), true),
        Err(SandboxError::ResourceLimitExceeded)
    );
}

#[test]
fn an_instantiation_without_refusal_ends_as_the_runtime_says() {
    assert_eq!(instantiation_outcome(Ok(7u8), false), Ok(7));
    assert_eq!(instantiation_outcome::<u8>(Err(true), false), Err(SandboxError::FuelExhausted));
    assert_eq!(instantiation_outcome::<u8>(Err(false), false), Err(SandboxError::Instantiation));
}

#[test]
fn a_call_is_told_by_what_the_runtime_hands_back() {
    assert_eq!(classify(&Ok(Some(15))), CallOutcome::Returned(Some(15)));
    assert_eq!(classify(&Ok(None)), CallOutcome::Returned(None));
    assert_eq!(classify(&Err(Error::from(Trap::OutOfFuel))), CallOutcome::OutOfFuel);
    assert_eq!(
        classify(&Err(Error::from(Trap::OutOfFuel).context("while running the guest"))),
        CallOutcome::OutOfFuel
    );
    assert_eq!(classify(&Err(Error::from(Trap::UnreachableCodeReached))), CallOutcome::Trapped);
    assert_eq!(classify(&Err(Error::from(Trap::StackOverflow))), CallOutcome::Trapped);
    assert_eq!(classify(&Err(Error::msg("out of fuel"))), CallOutcome::Trapped);
}

#[test]
fn every_error_has_a_name_and_a_message() {
    let all = [
        (SandboxError::ModuleLoad, "ModuleLoadError"),
        (SandboxError::Instantiation, "InstantiationError"),
        (SandboxError::FunctionNotFound, "FunctionNotFoundError"),
        (SandboxError::SignatureMismatch, "SignatureMismatchError"),
        (SandboxError::FuelExhausted, "FuelExhaustedError"),
        (SandboxError::ResourceLimitExceeded, "ResourceLimitExceededError"),
        (SandboxError::GuestTrap, "GuestTrapError"),
        (SandboxError::ResultType, "ResultTypeError"),
    ];
    for (error, name) in all {
        assert_eq!(error.name(), name);
        assert!(!error.message().is_empty());
    }
    assert_eq!(SandboxError::FunctionNotFound.message(), "Function not found");
    assert_eq!(SandboxError::ResultType.message(), "Expected i32 result");
}
