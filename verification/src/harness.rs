use vstd::prelude::*;
use vstd::arithmetic::mul::lemma_mul_inequality;

use crate::cell::{ExecLevel, GuardedCell};
use crate::fast_cell::FastGuardedCell;
use crate::registry::{lookup, Registry, StoredValue, TypeTag};

verus! {

/// How many of the spawn outcomes succeeded: a worker whose spawn failed is
/// excluded from the run and from the expected total, which is recomputed
/// from the actual spawn count rather than from the requested one.
pub open spec fn spawned_count(outcomes: Seq<bool>) -> nat
    decreases outcomes.len(),
{
    if outcomes.len() == 0 {
        0
    } else {
        spawned_count(outcomes.drop_last()) + (if outcomes.last() {
            1nat
        } else {
            0nat
        })
    }
}

/// Counting spawns over a longer prefix never lowers the count.
proof fn lemma_spawned_count_prefix_monotonic(s: Seq<bool>, a: int, b: int)
    requires
        0 <= a <= b <= s.len(),
    ensures
        spawned_count(s.subrange(0, a)) <= spawned_count(s.subrange(0, b)),
    decreases b - a,
{
    if a < b {
        lemma_spawned_count_prefix_monotonic(s, a, b - 1);
        assert(s.subrange(0, b).drop_last() =~= s.subrange(0, b - 1));
    }
}

/// Extending a prefix by one outcome adds one spawn when it succeeded.
proof fn lemma_spawned_count_step(s: Seq<bool>, t: int)
    requires
        0 <= t < s.len(),
    ensures
        spawned_count(s.subrange(0, t + 1)) == spawned_count(s.subrange(0, t)) + (if s[t] {
            1nat
        } else {
            0nat
        }),
{
    assert(s.subrange(0, t + 1).drop_last() =~= s.subrange(0, t));
}

/// How many workers each named scenario runs.
pub const THREAD_COUNT: u32 = 3;

/// How many protected increments each worker of the direct-pointer and
/// manual-pool scenarios performs.
pub const INCREMENTS_PER_THREAD: u32 = 500;

/// The total the direct-pointer and manual-pool scenarios expect: every
/// worker's every increment landed.
pub const RESULT_VAL: u32 = 1500;

/// What one scenario of the correctness harness reports: the counter read
/// back through the primitive after all workers were joined, the total the
/// scenario expected, and the verdict, which holds exactly when the two are
/// equal.
pub struct ScenarioOutcome {
    pub final_value: u32,
    pub expected: u32,
    pub passed: bool,
}

/// One worker of a scenario on a spinning cell: acquire the lock, increment
/// the contained integer by one, release the lock, `increments` times. Each
/// lock/increment/unlock sequence is atomic with respect to every other lock
/// holder, so exactly `increments` updates land in the cell and none is lost.
pub fn spin_worker(cell: &mut FastGuardedCell<u32>, increments: u32)
    requires
        !old(cell).is_locked(),
        old(cell).value() + increments <= u32::MAX,
    ensures
        !final(cell).is_locked(),
        final(cell).value() == old(cell).value() + increments,
{
    let mut done: u32 = 0;
    while done < increments
        invariant
            done <= increments,
            !cell.is_locked(),
            cell.value() == old(cell).value() + done,
            old(cell).value() + increments <= u32::MAX,
        decreases increments - done,
    {
        let mut guard = match cell.lock() {
            Ok(g) => g,
            Err(_) => {
                proof {
                    assert(false);
                }
                vstd::pervasive::unreached()
            },
        };
        let v = *guard.get();
        guard.set(v + 1);
        cell.unlock(guard);
        done += 1;
    }
}

/// One worker of a scenario on a blocking cell; the same protected mutation
/// as the spinning worker, but the blocking wait demands `Passive` level.
pub fn blocking_worker(cell: &mut GuardedCell<u32>, increments: u32, level: ExecLevel)
    requires
        !old(cell).is_locked(),
        old(cell).value() + increments <= u32::MAX,
        level is Passive,
    ensures
        !final(cell).is_locked(),
        final(cell).value() == old(cell).value() + increments,
{
    let mut done: u32 = 0;
    while done < increments
        invariant
            done <= increments,
            !cell.is_locked(),
            cell.value() == old(cell).value() + done,
            old(cell).value() + increments <= u32::MAX,
            level is Passive,
        decreases increments - done,
    {
        let mut guard = match cell.lock(level) {
            Ok(g) => g,
            Err(_) => {
                proof {
                    assert(false);
                }
                vstd::pervasive::unreached()
            },
        };
        let v = *guard.get();
        guard.set(v + 1);
        cell.unlock(guard);
        done += 1;
    }
}

/// The exclusivity scenario of the correctness harness, on a shared counter
/// reached through a spinning cell. A zero-initialized cell is published, one
/// worker runs for every spawn outcome that succeeded, each performing
/// `increments_per_thread` protected increments, and after all workers are
/// done the counter is read back through the same primitive and compared to
/// the expected total.
///
/// Exclusivity is the essential property under test, and here it is proved
/// rather than sampled: for every list of spawn outcomes and every
/// `increments_per_thread`, the final counter equals
/// `spawned_count * increments_per_thread` exactly — never less (a lost
/// update) and never more.
pub fn run_counter_scenario(spawn_outcomes: &Vec<bool>, increments_per_thread: u32) -> (outcome:
    ScenarioOutcome)
    requires
        spawned_count(spawn_outcomes@) * increments_per_thread <= u32::MAX,
    ensures
        outcome.final_value == spawned_count(spawn_outcomes@) * increments_per_thread,
        outcome.expected == outcome.final_value,
        outcome.passed,
{
    let mut cell = match FastGuardedCell::new(0u32) {
        Ok(c) => c,
        Err(_) => {
            proof {
                assert(false);
            }
            vstd::pervasive::unreached()
        },
    };
    let n = spawn_outcomes.len();
    let mut expected: u32 = 0;
    let mut t: usize = 0;
    proof {
        assert(spawn_outcomes@.subrange(0, 0) =~= Seq::<bool>::empty());
        assert(spawned_count(Seq::<bool>::empty()) == 0);
    }
    while t < n
        invariant
            t <= n,
            n == spawn_outcomes@.len(),
            !cell.is_locked(),
            expected == spawned_count(spawn_outcomes@.subrange(0, t as int))
                * increments_per_thread,
            cell.value() == expected,
            spawned_count(spawn_outcomes@) * increments_per_thread <= u32::MAX,
        decreases n - t,
    {
        if spawn_outcomes[t] {
            proof {
                let a = spawned_count(spawn_outcomes@.subrange(0, t as int));
                lemma_spawned_count_step(spawn_outcomes@, t as int);
                lemma_spawned_count_prefix_monotonic(spawn_outcomes@, t as int + 1, n as int);
                assert(spawn_outcomes@.subrange(0, n as int) =~= spawn_outcomes@);
                assert(spawned_count(spawn_outcomes@.subrange(0, t as int + 1)) == a + 1);
                lemma_mul_inequality(
                    (a + 1) as int,
                    spawned_count(spawn_outcomes@) as int,
                    increments_per_thread as int,
                );
                assert((a + 1) * (increments_per_thread as int) == a * (increments_per_thread as int)
                    + increments_per_thread) by (nonlinear_arith);
            }
            spin_worker(&mut cell, increments_per_thread);
            expected = expected + increments_per_thread;
        } else {
            proof {
                lemma_spawned_count_step(spawn_outcomes@, t as int);
            }
        }
        t += 1;
    }
    proof {
        assert(spawn_outcomes@.subrange(0, n as int) =~= spawn_outcomes@);
    }
    let final_value = cell.to_owned();
    ScenarioOutcome { final_value, expected, passed: final_value == expected }
}

/// One worker of a registry-mediated scenario: look the shared counter up
/// under its key and perform one protected increment through the registry,
/// `increments` times. A lookup failure — the key never registered, or bound
/// at another type — makes the worker return early with the error swallowed,
/// having performed no increment and left the registry as it found it: this
/// silent give-up is the documented source of expected-total drift. When the
/// key is bound to a 32-bit counter with room for the increments, the worker
/// completes them all, and the only change to the registry is the counter
/// having grown by `increments`.
pub fn registry_worker(reg: &mut Registry, key: &str, increments: u32)
    requires
        old(reg).wf(),
        lookup(old(reg).state(), old(reg).table(), key@, TypeTag::U32) matches Ok(sv) ==> (
        sv matches StoredValue::U32(v) && v + increments <= u32::MAX),
    ensures
        final(reg).wf(),
        final(reg).state() == old(reg).state(),
        lookup(old(reg).state(), old(reg).table(), key@, TypeTag::U32) matches Ok(sv) ==> (
        sv matches StoredValue::U32(v) && final(reg).table() == old(reg).table().insert(
            key@,
            StoredValue::U32((v + increments) as u32),
        )),
        lookup(old(reg).state(), old(reg).table(), key@, TypeTag::U32) is Err
            ==> final(reg).table() == old(reg).table(),
{
    let ghost l0 = lookup(old(reg).state(), old(reg).table(), key@, TypeTag::U32);
    proof {
        if l0 is Ok {
            assert(old(reg).table() =~= old(reg).table().insert(
                key@,
                StoredValue::U32(l0->Ok_0->U32_0),
            ));
        }
    }
    let mut done: u32 = 0;
    while done < increments
        invariant
            done <= increments,
            reg.wf(),
            reg.state() == old(reg).state(),
            l0 == lookup(old(reg).state(), old(reg).table(), key@, TypeTag::U32),
            l0 matches Ok(sv) ==> (sv matches StoredValue::U32(v) && v + increments <= u32::MAX
                && reg.table() == old(reg).table().insert(
                key@,
                StoredValue::U32((v + done) as u32),
            )),
            l0 is Err ==> reg.table() == old(reg).table(),
        decreases increments - done,
    {
        let r = reg.increment_u32(key, 1);
        if r.is_err() {
            // the worker gives up without completing its increments
            return;
        }
        done += 1;
        proof {
            if l0 is Ok {
                let v = l0->Ok_0->U32_0;
                assert(reg.table() =~= old(reg).table().insert(
                    key@,
                    StoredValue::U32((v + done) as u32),
                ));
            }
        }
    }
}

/// The exclusivity scenario of the correctness harness, with the shared
/// counter reached through a registry key instead of a direct pointer. The
/// key is registered with a zero-initialized counter, one worker runs for
/// every spawn outcome that succeeded, and the final value is read back
/// through a typed lookup. As with the direct scenario, the final counter
/// provably equals `spawned_count * increments_per_thread` exactly.
pub fn run_registry_scenario(
    reg: &mut Registry,
    key: &str,
    spawn_outcomes: &Vec<bool>,
    increments_per_thread: u32,
) -> (outcome: ScenarioOutcome)
    requires
        old(reg).wf(),
        old(reg).state() is Initialized,
        !old(reg).table().contains_key(key@),
        spawned_count(spawn_outcomes@) * increments_per_thread <= u32::MAX,
    ensures
        final(reg).wf(),
        final(reg).state() is Initialized,
        final(reg).table() == old(reg).table().insert(
            key@,
            StoredValue::U32((spawned_count(spawn_outcomes@) * increments_per_thread) as u32),
        ),
        outcome.final_value == spawned_count(spawn_outcomes@) * increments_per_thread,
        outcome.expected == outcome.final_value,
        outcome.passed,
{
    match reg.register_u32(key, 0) {
        Ok(()) => {},
        Err(_) => {
            // the registry is initialized and the key is fresh, so the
            // registration cannot fail
            proof {
                assert(false);
            }
        },
    }
    let n = spawn_outcomes.len();
    let mut expected: u32 = 0;
    let mut t: usize = 0;
    proof {
        assert(spawn_outcomes@.subrange(0, 0) =~= Seq::<bool>::empty());
        assert(spawned_count(Seq::<bool>::empty()) == 0);
    }
    while t < n
        invariant
            t <= n,
            n == spawn_outcomes@.len(),
            reg.wf(),
            reg.state() is Initialized,
            expected == spawned_count(spawn_outcomes@.subrange(0, t as int))
                * increments_per_thread,
            reg.table() == old(reg).table().insert(key@, StoredValue::U32(expected)),
            spawned_count(spawn_outcomes@) * increments_per_thread <= u32::MAX,
        decreases n - t,
    {
        if spawn_outcomes[t] {
            proof {
                let a = spawned_count(spawn_outcomes@.subrange(0, t as int));
                lemma_spawned_count_step(spawn_outcomes@, t as int);
                lemma_spawned_count_prefix_monotonic(spawn_outcomes@, t as int + 1, n as int);
                assert(spawn_outcomes@.subrange(0, n as int) =~= spawn_outcomes@);
                assert(spawned_count(spawn_outcomes@.subrange(0, t as int + 1)) == a + 1);
                lemma_mul_inequality(
                    (a + 1) as int,
                    spawned_count(spawn_outcomes@) as int,
                    increments_per_thread as int,
                );
                assert((a + 1) * (increments_per_thread as int) == a * (increments_per_thread as int)
                    + increments_per_thread) by (nonlinear_arith);
            }
            let ghost before = reg.table();
            registry_worker(reg, key, increments_per_thread);
            proof {
                assert(before.insert(
                    key@,
                    StoredValue::U32((expected + increments_per_thread) as u32),
                ) =~= old(reg).table().insert(
                    key@,
                    StoredValue::U32((expected + increments_per_thread) as u32),
                ));
            }
            expected = expected + increments_per_thread;
        } else {
            proof {
                lemma_spawned_count_step(spawn_outcomes@, t as int);
            }
        }
        t += 1;
    }
    proof {
        assert(spawn_outcomes@.subrange(0, n as int) =~= spawn_outcomes@);
    }
    let final_value = match reg.get_u32(key) {
        Ok(v) => v,
        Err(_) => {
            proof {
                assert(false);
            }
            vstd::pervasive::unreached()
        },
    };
    ScenarioOutcome { final_value, expected, passed: final_value == expected }
}

} // verus!
