use zwasm_sdk::func::{
    check_call_arity, check_result_types, check_valtype_list, copy_prefix, finish_call,
    host_panic_error,
};
use zwasm_sdk::global::{check_global_set, mutability_of, CONST, VAR};
use zwasm_sdk::memory::{check_grow, grow_result, Limits, NO_MAX};
use zwasm_sdk::{Error, TrapKind, ValType};

#[test]
fn valtype_kinds_are_the_c_constants() {
    // wasm_valkind_enum: WASM_I32, WASM_I64, WASM_F32, WASM_F64.
    let pairs: &[(ValType, u32)] = &[
        (ValType::I32, 0),
        (ValType::I64, 1),
        (ValType::F32, 2),
        (ValType::F64, 3),
    ];
    for &(ty, kind) in pairs {
        assert_eq!(ty.kind(), kind as u8, "{ty:?}");
    }
}

#[test]
fn a_kind_names_its_type_and_a_reference_kind_none() {
    for ty in [ValType::I32, ValType::I64, ValType::F32, ValType::F64] {
        assert_eq!(ValType::from_kind(ty.kind()), Some(ty));
    }
    assert_eq!(ValType::from_kind(128), None);
    assert_eq!(ValType::from_kind(129), None);
}

#[test]
fn a_call_with_matching_arities_is_let_through() {
    assert!(check_call_arity(2, 2, 1, 1).is_ok());
    assert!(check_call_arity(0, 0, 0, 0).is_ok());
}

#[test]
fn wrong_parameter_count_is_reported_first() {
    let err = check_call_arity(2, 1, 1, 5).unwrap_err();
    assert_eq!(err.to_string(), "expected 2 parameters, got 1");
    assert!(err.to_string().contains("parameters"));
}

#[test]
fn wrong_result_count_is_reported() {
    let err = check_call_arity(2, 2, 1, 0).unwrap_err();
    assert_eq!(err.to_string(), "expected 1 results, got 0");
    assert_eq!(err.trap_kind(), None);
}

#[test]
fn host_results_of_the_declared_types_pass() {
    assert_eq!(
        check_result_types(&[ValType::I32, ValType::F64], &[ValType::I32, ValType::F64]),
        Ok(())
    );
    assert_eq!(check_result_types(&[], &[]), Ok(()));
}

#[test]
fn the_first_host_result_of_the_wrong_type_is_named() {
    assert_eq!(
        check_result_types(
            &[ValType::I32, ValType::I64, ValType::F32],
            &[ValType::I32, ValType::F64, ValType::F64]
        ),
        Err(1)
    );
}

#[test]
fn a_trapping_call_leaves_the_results_as_they_were() {
    let mut results = [7i64];
    let trap = Error::Trap {
        kind: TrapKind::DivByZero,
        message: "integer divide by zero".to_string(),
    };
    let err = finish_call(Some(trap), &mut results, &[42]).unwrap_err();
    assert!(matches!(err, Error::Trap { .. }));
    assert_eq!(results, [7]);
}

#[test]
fn a_successful_call_writes_what_was_produced() {
    let mut results = [0i64, 0];
    finish_call(None, &mut results, &[42, 43]).unwrap();
    assert_eq!(results, [42, 43]);
}

#[test]
fn copying_stops_at_the_shorter_side() {
    let mut slots = [1u8, 2, 3];
    copy_prefix(&mut slots, &[9]);
    assert_eq!(slots, [9, 2, 3]);
    let mut slots = [1u8];
    copy_prefix(&mut slots, &[5, 6, 7]);
    assert_eq!(slots, [5]);
}

#[test]
fn no_maximum_and_the_largest_maximum_coincide() {
    assert_eq!(Limits::new(1, None), Limits { min: 1, max: NO_MAX });
    assert_eq!(Limits::new(1, Some(u32::MAX)), Limits::new(1, None));
    assert_eq!(Limits::new(0, Some(4)), Limits { min: 0, max: 4 });
    let unbounded = Limits::new(1, Some(u32::MAX));
    assert!(check_grow(Some(unbounded.max), 1, u32::MAX).is_ok());
}

#[test]
fn a_grow_within_the_declared_maximum_is_allowed() {
    assert!(check_grow(Some(4), 1, 3).is_ok());
    assert!(check_grow(Some(NO_MAX), u32::MAX, 1).is_ok());
    assert!(check_grow(Some(4), 4, 0).is_ok());
}

#[test]
fn a_grow_past_the_declared_maximum_is_refused() {
    let err = check_grow(Some(4), 1, 4).unwrap_err();
    assert_eq!(err.to_string(), "failed to grow memory");
    let err = check_grow(Some(u32::MAX - 1), u32::MAX - 1, u32::MAX).unwrap_err();
    assert_eq!(err.to_string(), "failed to grow memory");
}

#[test]
fn an_unreadable_memory_type_is_refused() {
    let err = check_grow(None, 1, 1).unwrap_err();
    assert_eq!(err.to_string(), "failed to read the memory's type");
}

#[test]
fn memory_grow_reports_the_previous_size() {
    assert_eq!(grow_result(1, true).unwrap(), 1);
    assert_eq!(grow_result(3, false).unwrap_err().to_string(), "failed to grow memory");
}

#[test]
fn global_mutability_uses_the_c_constants() {
    assert_eq!(mutability_of(false), CONST);
    assert_eq!(mutability_of(true), VAR);
    assert_eq!((CONST, VAR), (0, 1));
}

#[test]
fn setting_a_global_checks_mutability_then_type() {
    let err = check_global_set(CONST, ValType::I64.kind(), ValType::I32).unwrap_err();
    assert!(err.to_string().contains("immutable"));
    let err = check_global_set(VAR, ValType::I32.kind(), ValType::I64).unwrap_err();
    assert!(err.to_string().contains("type"));
    assert!(check_global_set(VAR, ValType::F64.kind(), ValType::F64).is_ok());
}

#[test]
fn a_value_type_list_needs_storage_unless_empty() {
    assert!(check_valtype_list(0, false).is_ok());
    assert!(check_valtype_list(2, true).is_ok());
    let err = check_valtype_list(2, false).unwrap_err();
    assert_eq!(err.to_string(), "failed to create value type list");
}

#[test]
fn a_host_panic_keeps_its_own_message() {
    assert_eq!(
        host_panic_error(Some("the host gave up")).to_string(),
        "host function panicked: the host gave up"
    );
    assert_eq!(host_panic_error(None).to_string(), "host function panicked");
}
