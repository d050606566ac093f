use zwasm_sdk::error::{non_null, trap_into_result, trap_message_text, trap_to_error};
use zwasm_sdk::{Error, TrapKind};

#[test]
fn trap_kind_an_unknown_kind_round_trips() {
    assert_eq!(TrapKind::from(99), TrapKind::Unknown(99));
    assert_eq!(TrapKind::from(-1), TrapKind::Unknown(-1));
}

#[test]
fn every_documented_kind_is_named() {
    for code in 0..=17 {
        assert!(
            !matches!(TrapKind::from(code), TrapKind::Unknown(_)),
            "kind {code} is documented in zwasm.h but has no variant"
        );
    }
}

#[test]
fn every_code_maps_to_the_variant_in_header_order() {
    let expected = [
        TrapKind::BindingError,
        TrapKind::Unreachable,
        TrapKind::DivByZero,
        TrapKind::IntOverflow,
        TrapKind::InvalidConversion,
        TrapKind::OobMemory,
        TrapKind::OobTable,
        TrapKind::UninitializedElem,
        TrapKind::IndirectCallMismatch,
        TrapKind::StackOverflow,
        TrapKind::OutOfMemory,
        TrapKind::NullReference,
        TrapKind::CastFailure,
        TrapKind::UncaughtException,
        TrapKind::UnalignedAtomic,
        TrapKind::ExpectedSharedMemory,
        TrapKind::Interrupted,
        TrapKind::OutOfFuel,
        TrapKind::WasiExit,
        TrapKind::InvalidModule,
        TrapKind::Unsupported,
    ];
    for (code, kind) in expected.iter().enumerate() {
        assert_eq!(TrapKind::from(code as i32), *kind, "code {code}");
    }
    assert_eq!(TrapKind::from(21), TrapKind::Unknown(21));
    assert_eq!(TrapKind::from(i32::MIN), TrapKind::Unknown(i32::MIN));
}

#[test]
fn a_message_error_has_no_kind() {
    let err = Error::Message("failed to create module".to_string());
    assert_eq!(err.trap_kind(), None);
    assert_eq!(err.to_string(), "failed to create module");
}

#[test]
fn a_wasi_exit_error_carries_its_kind_and_status() {
    let err = Error::WasiExit { code: 3 };
    assert_eq!(err.trap_kind(), Some(TrapKind::WasiExit));
    assert_eq!(err.to_string(), "exited with status 3");
    let err = Error::WasiExit { code: u32::MAX };
    assert_eq!(err.to_string(), "exited with status 4294967295");
}

#[test]
fn a_trap_error_carries_its_kind_and_prints_its_message() {
    let err = Error::Trap {
        kind: TrapKind::DivByZero,
        message: "integer divide by zero".to_string(),
    };
    assert_eq!(err.trap_kind(), Some(TrapKind::DivByZero));
    assert_eq!(err.to_string(), "integer divide by zero");
}

#[test]
fn a_trap_message_loses_its_terminator_and_nothing_else() {
    assert_eq!(trap_message_text(Some(b"unreachable\0")), "unreachable");
    assert_eq!(
        trap_message_text(Some(b"integer divide by zero")),
        "integer divide by zero"
    );
    assert_eq!(trap_message_text(Some(b"x\0\0")), "x\0");
    assert_eq!(trap_message_text(Some(b"\0")), "");
    assert_eq!(trap_message_text(Some(b"")), "");
}

#[test]
fn a_missing_trap_message_is_named() {
    assert_eq!(trap_message_text(None), "trap with no message");
}

#[test]
fn an_ill_formed_trap_message_is_decoded_lossily() {
    assert_eq!(trap_message_text(Some(&[0x61, 0xff, 0x62])), "a\u{fffd}b");
}

#[test]
fn a_trap_becomes_a_trap_error_with_its_kind() {
    let err = trap_to_error(2, None, Some(b"integer divide by zero\0"));
    match err {
        Error::Trap { kind, message } => {
            assert_eq!(kind, TrapKind::DivByZero);
            assert_eq!(message, "integer divide by zero");
        }
        other => panic!("expected a trap, got {other:?}"),
    }
}

#[test]
fn a_status_from_the_store_is_only_read_for_a_wasi_exit() {
    let err = trap_to_error(1, Some(7), Some(b"unreachable"));
    assert!(matches!(err, Error::Trap { kind: TrapKind::Unreachable, .. }));
}

#[test]
fn a_wasi_exit_with_a_status_becomes_an_exit() {
    let err = trap_to_error(18, Some(0), Some(b"exit"));
    assert!(matches!(err, Error::WasiExit { code: 0 }));
    assert_eq!(err.trap_kind(), Some(TrapKind::WasiExit));
}

#[test]
fn a_wasi_exit_without_a_status_stays_a_trap_of_that_kind() {
    let err = trap_to_error(18, None, None);
    match err {
        Error::Trap { kind, message } => {
            assert_eq!(kind, TrapKind::WasiExit);
            assert_eq!(message, "trap with no message");
        }
        other => panic!("expected a trap, got {other:?}"),
    }
}

#[test]
fn an_unknown_trap_code_keeps_its_value() {
    let err = trap_to_error(42, None, Some(b"new"));
    assert_eq!(err.trap_kind(), Some(TrapKind::Unknown(42)));
}

#[test]
fn a_null_handle_becomes_the_given_message() {
    let ok: Result<u8, Error> = non_null(Some(5u8), "failed to create store");
    assert_eq!(ok.unwrap(), 5);
    let err = non_null::<u8>(None, "failed to create store").unwrap_err();
    assert!(matches!(&err, Error::Message(m) if m == "failed to create store"));
}

#[test]
fn no_trap_is_success_and_a_trap_is_its_error() {
    assert!(trap_into_result(None).is_ok());
    let err = trap_into_result(Some(Error::WasiExit { code: 1 })).unwrap_err();
    assert!(matches!(err, Error::WasiExit { code: 1 }));
}

#[test]
fn an_error_minted_into_a_trap_reads_back_with_its_message() {
    let err = Error::Message("the host said no".to_string());
    let bytes = zwasm_sdk::error::trap_message_bytes(&err);
    assert_eq!(bytes, b"the host said no\0");
    assert_eq!(trap_message_text(Some(&bytes)), "the host said no");

    let err = Error::WasiExit { code: 12 };
    let bytes = zwasm_sdk::error::trap_message_bytes(&err);
    assert_eq!(trap_message_text(Some(&bytes)), "exited with status 12");

    let err = Error::Message("héllo 黑".to_string());
    let bytes = zwasm_sdk::error::trap_message_bytes(&err);
    assert_eq!(trap_message_text(Some(&bytes)), "héllo 黑");
}

#[test]
fn the_kinds_zwasm_2_7_added_have_their_own_variants() {
    assert_eq!(TrapKind::from(19), TrapKind::InvalidModule);
    assert_eq!(TrapKind::from(20), TrapKind::Unsupported);
    let err = trap_to_error(19, None, Some(b"invalid module\0"));
    assert_eq!(err.trap_kind(), Some(TrapKind::InvalidModule));
    assert_eq!(err.to_string(), "invalid module");
}
