use guarded_registry::driver::run_all_scenarios;
use guarded_registry::errors::RegistryError;
use guarded_registry::fast_scenarios::{test_grt, test_grt2, test_grt3, FastMutexTest};
use guarded_registry::harness::{registry_worker, run_counter_scenario, run_registry_scenario};
use guarded_registry::kmutex_scenarios::KMutexTest;
use guarded_registry::registry::Registry;

fn initialized() -> Registry {
    let mut reg = Registry::new();
    assert!(reg.init().is_ok());
    reg
}

#[test]
fn three_workers_times_five_hundred_yield_fifteen_hundred() {
    let outcome = run_counter_scenario(&vec![true, true, true], 500);
    assert_eq!(outcome.final_value, 1500);
    assert_eq!(outcome.expected, 1500);
    assert!(outcome.passed);
}

#[test]
fn failed_spawns_shrink_the_expected_total() {
    let outcome = run_counter_scenario(&vec![true, false, true], 500);
    assert_eq!(outcome.final_value, 1000);
    assert_eq!(outcome.expected, 1000);
    assert!(outcome.passed);
}

#[test]
fn no_spawns_yield_zero() {
    let outcome = run_counter_scenario(&vec![], 500);
    assert_eq!(outcome.final_value, 0);
    assert!(outcome.passed);
}

#[test]
fn one_worker_one_increment() {
    let outcome = run_counter_scenario(&vec![true], 1);
    assert_eq!(outcome.final_value, 1);
    assert!(outcome.passed);
}

#[test]
fn registry_scenario_reaches_the_expected_total() {
    let mut reg = initialized();
    let outcome = run_registry_scenario(&mut reg, "shared", &vec![true, true, true], 100);
    assert_eq!(outcome.final_value, 300);
    assert!(outcome.passed);
    assert_eq!(reg.get_u32("shared"), Ok(300));
}

#[test]
fn fast_multithread_scenario_passes() {
    assert!(FastMutexTest::test_multithread_mutex_global_static());
}

#[test]
fn fast_manual_pool_scenario_passes() {
    assert!(FastMutexTest::test_multithread_mutex_global_static_manual_pool());
}

#[test]
fn fast_to_owned_checks_pass() {
    assert!(FastMutexTest::test_to_owned());
    assert!(FastMutexTest::test_to_owned_box());
}

#[test]
fn kmutex_multithread_scenario_passes() {
    assert!(KMutexTest::test_multithread_mutex_global_static());
}

#[test]
fn kmutex_manual_pool_scenario_passes() {
    assert!(KMutexTest::test_multithread_mutex_global_static_manual_pool());
}

#[test]
fn kmutex_to_owned_checks_pass() {
    assert!(KMutexTest::test_to_owned());
    assert!(KMutexTest::test_to_owned_box());
}

#[test]
fn grt_chain_leaves_each_key_at_three_hundred() {
    let mut reg = initialized();
    assert!(test_grt(&mut reg).is_ok());
    assert_eq!(reg.get_u32("my_test_mutex"), Ok(300));
    assert_eq!(reg.get_u32("my_test_mutex2"), Ok(300));
    assert_eq!(reg.get_u32("my_test_mutex3"), Ok(300));
}

#[test]
fn grt_second_scenario_alone() {
    let mut reg = initialized();
    assert!(test_grt2(&mut reg).is_ok());
    assert_eq!(reg.get_u32("my_test_mutex2"), Ok(300));
    assert_eq!(reg.get_u32("my_test_mutex3"), Ok(300));
}

#[test]
fn grt_third_scenario_alone() {
    let mut reg = initialized();
    assert!(test_grt3(&mut reg).is_ok());
    assert_eq!(reg.get_u32("my_test_mutex3"), Ok(300));
}

#[test]
fn grt_thrice_passes() {
    let mut reg = initialized();
    assert!(FastMutexTest::test_grt_thrice(&mut reg).is_ok());
    assert_eq!(reg.get_u32("my_test_mutex"), Ok(300));
}

#[test]
fn all_scenarios_pass_on_a_fresh_registry() {
    let mut reg = initialized();
    assert!(run_all_scenarios(&mut reg));
    assert!(reg.destroy().is_ok());
}

#[test]
fn grt_fails_on_an_uninitialized_registry() {
    let mut reg = Registry::new();
    assert!(test_grt(&mut reg).is_err());
    assert_eq!(
        reg.get_u32("my_test_mutex"),
        Err(RegistryError::NotInitialized)
    );
}

#[test]
fn grt_reports_a_duplicate_first_key_and_keeps_the_value() {
    let mut reg = initialized();
    assert!(reg.register_u32("my_test_mutex", 7).is_ok());
    assert!(test_grt(&mut reg).is_err());
    assert_eq!(reg.get_u32("my_test_mutex"), Ok(7));
    assert_eq!(reg.get_u32("my_test_mutex2"), Err(RegistryError::NotFound));
}

#[test]
fn grt_reports_a_first_key_held_at_another_type() {
    let mut reg = initialized();
    assert!(reg.register_u8("my_test_mutex", 0).is_ok());
    assert!(test_grt(&mut reg).is_err());
    assert_eq!(
        reg.get_u32("my_test_mutex"),
        Err(RegistryError::TypeMismatch)
    );
    assert_eq!(reg.get_u8("my_test_mutex"), Ok(0));
}

#[test]
fn grt2_duplicate_key_fails_and_keeps_the_stored_value() {
    let mut reg = initialized();
    assert!(reg.register_u32("my_test_mutex2", 9).is_ok());
    assert!(test_grt2(&mut reg).is_err());
    assert_eq!(reg.get_u32("my_test_mutex2"), Ok(9));
    assert_eq!(reg.get_u32("my_test_mutex3"), Err(RegistryError::NotFound));
}

#[test]
fn grt2_nested_failure_keeps_its_zero_registration() {
    let mut reg = initialized();
    assert!(reg.register_u32("my_test_mutex3", 50).is_ok());
    assert!(test_grt2(&mut reg).is_err());
    // the nested scenario failed; this scenario's registration is not rolled
    // back and its counter never moved
    assert_eq!(reg.get_u32("my_test_mutex2"), Ok(0));
    assert_eq!(reg.get_u32("my_test_mutex3"), Ok(50));
}

#[test]
fn worker_gives_up_on_a_missing_key() {
    let mut reg = initialized();
    registry_worker(&mut reg, "absent", 5);
    assert_eq!(reg.get_u32("absent"), Err(RegistryError::NotFound));
}

#[test]
fn worker_gives_up_on_a_mismatched_key() {
    let mut reg = initialized();
    assert!(reg.register_u8("k", 1).is_ok());
    registry_worker(&mut reg, "k", 5);
    assert_eq!(reg.get_u8("k"), Ok(1));
}
