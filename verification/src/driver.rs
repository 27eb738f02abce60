use vstd::prelude::*;

use crate::fast_scenarios::{FastMutexTest, GRT_RESULT_VAL};
use crate::kmutex_scenarios::KMutexTest;
use crate::registry::{Registry, StoredValue};

verus! {

/// Run every named scenario of the correctness harness, in the order the
/// surrounding program runs them at startup, stopping at the first failure.
/// The registry must be freshly initialized, with none of the scenario keys
/// taken; every scenario's verdict is then proved to be a pass, so the
/// aggregate is too — the surrounding program turns it into its exit status —
/// and the registry-mediated chain leaves exactly the three scenario keys
/// registered, each counter at `GRT_RESULT_VAL`.
pub fn run_all_scenarios(reg: &mut Registry) -> (all_passed: bool)
    requires
        old(reg).wf(),
        old(reg).state() is Initialized,
        !old(reg).table().contains_key("my_test_mutex"@),
        !old(reg).table().contains_key("my_test_mutex2"@),
        !old(reg).table().contains_key("my_test_mutex3"@),
    ensures
        all_passed,
        final(reg).wf(),
        final(reg).state() is Initialized,
        final(reg).table() == old(reg).table().insert(
            "my_test_mutex"@,
            StoredValue::U32(GRT_RESULT_VAL),
        ).insert("my_test_mutex2"@, StoredValue::U32(GRT_RESULT_VAL)).insert(
            "my_test_mutex3"@,
            StoredValue::U32(GRT_RESULT_VAL),
        ),
{
    if !KMutexTest::test_multithread_mutex_global_static() {
        return false;
    }
    if !KMutexTest::test_multithread_mutex_global_static_manual_pool() {
        return false;
    }
    if !KMutexTest::test_to_owned() {
        return false;
    }
    if !KMutexTest::test_to_owned_box() {
        return false;
    }
    if FastMutexTest::test_grt_thrice(reg).is_err() {
        return false;
    }
    true
}

} // verus!
