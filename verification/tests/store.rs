use zwasm_sdk::wasi::{
    check_c_strings, check_env_strings, check_preopen_paths, contains_nul, inherit_env_result,
    preopen_result,
};
use zwasm_sdk::Registry;

type TestRegistry = Registry<u8, u16, u32, u64, i8, i16>;

#[test]
fn a_new_store_owns_nothing_and_allows_wasi() {
    let r = TestRegistry::new(5);
    assert_eq!(r.id(), 5);
    assert!(r.belongs(5));
    assert!(!r.belongs(6));
    assert!(r.funcs().is_empty() && r.instances().is_empty() && r.tables().is_empty());
}

#[test]
fn recording_objects_of_every_kind_keeps_what_was_there() {
    let mut r = TestRegistry::new(0);
    r.add_module(1);
    r.add_instance(2);
    r.add_func(3);
    r.add_memory(4);
    r.add_global(5);
    r.add_table(6);
    r.add_instance(7);
    assert_eq!(r.modules(), &[1]);
    assert_eq!(r.instances(), &[2, 7]);
    assert_eq!(r.funcs(), &[3]);
    assert_eq!(r.memories(), &[4]);
    assert_eq!(r.globals(), &[5]);
    assert_eq!(r.tables(), &[6]);
    assert_eq!(r.id(), 0);
}

#[test]
fn a_store_prints_what_it_holds_rather_than_which_pointers() {
    let mut r = TestRegistry::new(7);
    r.add_module(1);
    r.add_instance(2);
    let printed = r.summary();
    assert!(printed.contains("modules: 1"), "{printed}");
    assert!(printed.contains("instances: 1"), "{printed}");
    assert!(printed.contains("tables: 0"), "{printed}");
    assert!(!printed.contains('['), "{printed}");
    assert_eq!(
        printed,
        "Store { id: 7, funcs: 0, instances: 1, modules: 1, memories: 0, globals: 0, tables: 0 }"
    );
}

#[test]
fn the_registry_keeps_creation_order() {
    let mut r = TestRegistry::new(1);
    r.add_func(3);
    r.add_func(1);
    r.add_func(2);
    assert_eq!(r.funcs(), &[3, 1, 2]);
    r.add_global(-1);
    assert_eq!(r.globals(), &[-1]);
    assert_eq!(r.modules(), &[] as &[u32]);
}

#[test]
fn a_string_with_a_nul_byte_is_found() {
    assert!(contains_nul("bad\0arg"));
    assert!(!contains_nul("prog"));
    assert!(!contains_nul(""));
}

#[test]
fn args_with_an_interior_nul_are_refused() {
    assert!(check_c_strings(&["prog", "--flag"]).is_ok());
    assert!(check_c_strings(&[]).is_ok());
    let err = check_c_strings(&["prog", "bad\0arg"]).unwrap_err();
    assert_eq!(err.to_string(), "string contains an interior null byte");
}

#[test]
fn envs_with_an_interior_nul_are_refused() {
    assert!(check_env_strings(&[("KEY1", "VALUE1"), ("KEY2", "VALUE2")]).is_ok());
    assert!(check_env_strings(&[("KEY", "bad\0value")]).is_err());
    assert!(check_env_strings(&[("K\0EY", "value")]).is_err());
}

#[test]
fn preopen_paths_say_which_one_held_a_nul() {
    assert!(check_preopen_paths("/tmp", "/").is_ok());
    let err = check_preopen_paths("/tmp\0bad", "/").unwrap_err();
    assert_eq!(err.to_string(), "host path contains an interior null byte");
    let err = check_preopen_paths("/tmp", "/\0").unwrap_err();
    assert_eq!(err.to_string(), "guest path contains an interior null byte");
    let err = check_preopen_paths("\0", "\0").unwrap_err();
    assert_eq!(err.to_string(), "host path contains an interior null byte");
}

#[test]
fn c_side_outcomes_become_results() {
    assert!(inherit_env_result(true).is_ok());
    assert_eq!(inherit_env_result(false).unwrap_err().to_string(), "failed to inherit env");
    assert!(preopen_result(true).is_ok());
    assert_eq!(
        preopen_result(false).unwrap_err().to_string(),
        "failed to preopen directory"
    );
}
