use vstd::prelude::*;

use crate::fast_cell::FastGuardedCell;
use crate::harness::{registry_worker, spin_worker, INCREMENTS_PER_THREAD, RESULT_VAL, THREAD_COUNT};
use crate::pool::Pool;
use crate::registry::{lookup, Registry, StoredValue, TypeTag};

verus! {

/// How many protected increments each worker of the registry-mediated
/// scenarios performs.
pub const GRT_INCREMENTS_PER_THREAD: u32 = 100;

/// The total each registry-mediated scenario expects under its key.
pub const GRT_RESULT_VAL: u32 = 300;

/// The named scenarios of the correctness harness that exercise the spinning
/// guarded cell: repeated protected mutation through a shared cell, the same
/// through a cell that addresses a manually allocated block, the two
/// value-extraction checks, and the registry-mediated scenarios. Each returns
/// its verdict, and each verdict is proved to be a pass.
pub struct FastMutexTest {}

impl FastMutexTest {
    /// Exercise the spinning cell with `THREAD_COUNT` workers, each performing
    /// `INCREMENTS_PER_THREAD` protected increments on a zero-initialized
    /// shared counter. Passes exactly when the final value read back under the
    /// lock is `RESULT_VAL`: with every worker joined, mutual exclusion lets
    /// no update be lost, so the verdict is proved to be a pass.
    pub fn test_multithread_mutex_global_static() -> (passed: bool)
        ensures
            passed,
    {
        let mut cell = match FastGuardedCell::new(0u32) {
            Ok(c) => c,
            Err(_) => {
                proof {
                    assert(false);
                }
                vstd::pervasive::unreached()
            },
        };
        let mut spawned: u32 = 0;
        while spawned < THREAD_COUNT
            invariant
                spawned <= THREAD_COUNT,
                !cell.is_locked(),
                cell.value() == spawned * INCREMENTS_PER_THREAD,
            decreases THREAD_COUNT - spawned,
        {
            Self::callback_test_multithread_mutex_global_static(&mut cell);
            spawned += 1;
        }
        let guard = match cell.lock() {
            Ok(g) => g,
            Err(_) => {
                proof {
                    assert(false);
                }
                vstd::pervasive::unreached()
            },
        };
        let final_value = *guard.get();
        cell.unlock(guard);
        final_value == RESULT_VAL
    }

    /// One worker of the shared-counter scenario: `INCREMENTS_PER_THREAD`
    /// protected increments, spinning for the lock, so safe at any level.
    fn callback_test_multithread_mutex_global_static(cell: &mut FastGuardedCell<u32>)
        requires
            !old(cell).is_locked(),
            old(cell).value() + INCREMENTS_PER_THREAD <= u32::MAX,
        ensures
            !final(cell).is_locked(),
            final(cell).value() == old(cell).value() + INCREMENTS_PER_THREAD,
    {
        spin_worker(cell, INCREMENTS_PER_THREAD);
    }

    /// The shared-counter scenario again, but the counter lives in a manually
    /// allocated pool block and the cell owns only the handle to it. The
    /// split ownership ends with the explicit two-step release: read the
    /// final value and take the handle out under the lock, free the block,
    /// then drop the cell. The verdict is proved to be a pass.
    pub fn test_multithread_mutex_global_static_manual_pool() -> (passed: bool)
        ensures
            passed,
    {
        let mut pool = Pool::new();
        let handle = match pool.allocate(0) {
            Ok(h) => h,
            Err(_) => {
                proof {
                    assert(false);
                }
                vstd::pervasive::unreached()
            },
        };
        let mut cell = match FastGuardedCell::new(handle) {
            Ok(c) => c,
            Err(_) => {
                proof {
                    assert(false);
                }
                vstd::pervasive::unreached()
            },
        };
        let mut spawned: u32 = 0;
        while spawned < THREAD_COUNT
            invariant
                spawned <= THREAD_COUNT,
                !cell.is_locked(),
                cell.value() == handle,
                pool.is_live(handle),
                pool.value_at(handle) == spawned * INCREMENTS_PER_THREAD,
            decreases THREAD_COUNT - spawned,
        {
            Self::callback_test_multithread_mutex_global_static_manual_pool(&mut cell, &mut pool);
            spawned += 1;
        }
        let guard = match cell.lock() {
            Ok(g) => g,
            Err(_) => {
                proof {
                    assert(false);
                }
                vstd::pervasive::unreached()
            },
        };
        let h = *guard.get();
        let final_value = pool.read(h);
        cell.unlock(guard);
        // the two-step release: the harness owns the block, the cell owned
        // only the handle — free the block first, then let the cell drop
        pool.free(h);
        final_value == RESULT_VAL
    }

    /// One worker of the manual-pool scenario: acquire the cell's lock, read
    /// the handle it guards, increment the counter in the addressed block,
    /// release, `INCREMENTS_PER_THREAD` times. The block itself is mutated
    /// only while the handle's cell is held, so the exclusivity of the cell
    /// protects the block.
    fn callback_test_multithread_mutex_global_static_manual_pool(
        cell: &mut FastGuardedCell<usize>,
        pool: &mut Pool,
    )
        requires
            !old(cell).is_locked(),
            old(pool).is_live(old(cell).value()),
            old(pool).value_at(old(cell).value()) + INCREMENTS_PER_THREAD <= u32::MAX,
        ensures
            !final(cell).is_locked(),
            final(cell).value() == old(cell).value(),
            final(pool).blocks() =~= old(pool).blocks().update(
                old(cell).value() as int,
                Some((old(pool).value_at(old(cell).value()) + INCREMENTS_PER_THREAD) as u32),
            ),
    {
        let ghost h0 = old(cell).value();
        let ghost v0 = old(pool).value_at(h0);
        let mut done: u32 = 0;
        while done < INCREMENTS_PER_THREAD
            invariant
                done <= INCREMENTS_PER_THREAD,
                v0 + INCREMENTS_PER_THREAD <= u32::MAX,
                !cell.is_locked(),
                cell.value() == h0,
                h0 < old(pool).blocks().len(),
                pool.blocks() =~= old(pool).blocks().update(h0 as int, Some((v0 + done) as u32)),
                pool.is_live(h0),
                pool.value_at(h0) == v0 + done,
            decreases INCREMENTS_PER_THREAD - done,
        {
            let mut guard = match cell.lock() {
                Ok(g) => g,
                Err(_) => {
                    proof {
                        assert(false);
                    }
                    vstd::pervasive::unreached()
                },
            };
            let h = *guard.get();
            let v = pool.read(h);
            pool.write(h, v + 1);
            cell.unlock(guard);
            done += 1;
            proof {
                assert(pool.blocks() =~= old(pool).blocks().update(
                    h0 as int,
                    Some((v0 + done) as u32),
                ));
            }
        }
    }

    /// Extraction check: after one protected increment of a zero-initialized
    /// cell, `to_owned` yields the incremented value. The verdict is proved
    /// to be a pass.
    pub fn test_to_owned() -> (passed: bool)
        ensures
            passed,
    {
        let mut m = match FastGuardedCell::new(0u8) {
            Ok(c) => c,
            Err(_) => {
                proof {
                    assert(false);
                }
                vstd::pervasive::unreached()
            },
        };
        {
            let mut guard = match m.lock() {
                Ok(g) => g,
                Err(_) => {
                    proof {
                        assert(false);
                    }
                    vstd::pervasive::unreached()
                },
            };
            let v = *guard.get();
            guard.set(v + 1);
            m.unlock(guard);
        }
        let x = m.to_owned();
        if x == 1 {
            true
        } else {
            false
        }
    }

    /// Extraction check: like `test_to_owned`, through the heap-allocated
    /// handle that `to_owned_box` returns. The verdict is proved to be a
    /// pass.
    pub fn test_to_owned_box() -> (passed: bool)
        ensures
            passed,
    {
        let mut m = match FastGuardedCell::new(0u8) {
            Ok(c) => c,
            Err(_) => {
                proof {
                    assert(false);
                }
                vstd::pervasive::unreached()
            },
        };
        {
            let mut guard = match m.lock() {
                Ok(g) => g,
                Err(_) => {
                    proof {
                        assert(false);
                    }
                    vstd::pervasive::unreached()
                },
            };
            let v = *guard.get();
            guard.set(v + 1);
            m.unlock(guard);
        }
        let x = m.to_owned_box();
        if *x == 1 {
            true
        } else {
            false
        }
    }

    /// Run the chain of registry-mediated scenarios once. On a registry that
    /// is initialized and does not yet hold the scenario keys the chain
    /// succeeds and leaves each key's counter at `GRT_RESULT_VAL`; on any
    /// other registry it fails exactly as the first scenario does.
    pub fn test_grt_thrice(reg: &mut Registry) -> (r: Result<(), ()>)
        requires
            old(reg).wf(),
        ensures
            final(reg).wf(),
            final(reg).state() == old(reg).state(),
            !(old(reg).state() is Initialized && !old(reg).table().contains_key(
                "my_test_mutex"@,
            )) ==> r is Err && final(reg).table() == old(reg).table(),
            (old(reg).state() is Initialized && !old(reg).table().contains_key("my_test_mutex"@)
                && old(reg).table().contains_key("my_test_mutex2"@)) ==> r is Err && final(reg).table() == old(reg).table().insert("my_test_mutex"@, StoredValue::U32(0)),
            (old(reg).state() is Initialized && !old(reg).table().contains_key("my_test_mutex"@)
                && !old(reg).table().contains_key("my_test_mutex2"@) && old(reg).table().contains_key("my_test_mutex3"@)) ==> r is Err && final(reg).table() == old(reg).table().insert("my_test_mutex"@, StoredValue::U32(0)).insert(
                "my_test_mutex2"@,
                StoredValue::U32(0),
            ),
            (old(reg).state() is Initialized && !old(reg).table().contains_key("my_test_mutex"@)
                && !old(reg).table().contains_key("my_test_mutex2"@) && !old(reg).table().contains_key("my_test_mutex3"@)) ==> r is Ok && final(reg).table() == old(reg).table().insert("my_test_mutex"@, StoredValue::U32(GRT_RESULT_VAL)).insert(
                "my_test_mutex2"@,
                StoredValue::U32(GRT_RESULT_VAL),
            ).insert("my_test_mutex3"@, StoredValue::U32(GRT_RESULT_VAL)),
    {
        let outcome = test_grt(reg);
        match outcome {
            Ok(()) => Ok(()),
            Err(()) => Err(()),
        }
    }
}

/// The three scenario keys are pairwise distinct.
proof fn grt_keys_distinct()
    ensures
        "my_test_mutex"@ != "my_test_mutex2"@,
        "my_test_mutex"@ != "my_test_mutex3"@,
        "my_test_mutex2"@ != "my_test_mutex3"@,
{
    reveal_strlit("my_test_mutex");
    reveal_strlit("my_test_mutex2");
    reveal_strlit("my_test_mutex3");
    assert(("my_test_mutex"@).len() == 13);
    assert(("my_test_mutex2"@).len() == 14);
    assert(("my_test_mutex3"@).len() == 14);
    assert(("my_test_mutex2"@)[13] == '2');
    assert(("my_test_mutex3"@)[13] == '3');
}

/// The first registry-mediated scenario: register a zero-initialized counter
/// under its key, run the second scenario while this one's workers are out,
/// then join the workers and check that the counter reached `GRT_RESULT_VAL`.
/// A registration failure outside a worker callback is reported to the
/// caller: an uninitialized or torn-down registry, or one already holding
/// this key — at any type — makes the scenario fail with the registry
/// unchanged. A failure of the nested scenario is reported too, and this
/// scenario's zero-valued registration is not rolled back. On a clean run
/// every step succeeds and all three keys end at `GRT_RESULT_VAL`.
pub fn test_grt(reg: &mut Registry) -> (r: Result<(), ()>)
    requires
        old(reg).wf(),
    ensures
        final(reg).wf(),
        final(reg).state() == old(reg).state(),
        !(old(reg).state() is Initialized && !old(reg).table().contains_key("my_test_mutex"@))
            ==> r is Err && final(reg).table() == old(reg).table(),
        (old(reg).state() is Initialized && !old(reg).table().contains_key("my_test_mutex"@)
            && old(reg).table().contains_key("my_test_mutex2"@)) ==> r is Err && final(reg).table() == old(reg).table().insert("my_test_mutex"@, StoredValue::U32(0)),
        (old(reg).state() is Initialized && !old(reg).table().contains_key("my_test_mutex"@)
            && !old(reg).table().contains_key("my_test_mutex2"@) && old(reg).table().contains_key(
            "my_test_mutex3"@,
        )) ==> r is Err && final(reg).table() == old(reg).table().insert(
            "my_test_mutex"@,
            StoredValue::U32(0),
        ).insert("my_test_mutex2"@, StoredValue::U32(0)),
        (old(reg).state() is Initialized && !old(reg).table().contains_key("my_test_mutex"@)
            && !old(reg).table().contains_key("my_test_mutex2"@)
            && !old(reg).table().contains_key("my_test_mutex3"@)) ==> r is Ok && final(reg).table() == old(reg).table().insert("my_test_mutex"@, StoredValue::U32(GRT_RESULT_VAL)).insert(
            "my_test_mutex2"@,
            StoredValue::U32(GRT_RESULT_VAL),
        ).insert("my_test_mutex3"@, StoredValue::U32(GRT_RESULT_VAL)),
{
    proof {
        grt_keys_distinct();
    }
    if reg.register_u32("my_test_mutex", 0).is_err() {
        // a registration failure outside a worker callback is reported
        return Err(());
    }
    match test_grt2(reg) {
        Ok(()) => {},
        Err(()) => {
            return Err(());
        },
    }
    proof {
        grt_keys_distinct();
        assert(reg.table() =~= old(reg).table().insert(
            "my_test_mutex2"@,
            StoredValue::U32(GRT_RESULT_VAL),
        ).insert("my_test_mutex3"@, StoredValue::U32(GRT_RESULT_VAL)).insert(
            "my_test_mutex"@,
            StoredValue::U32(0),
        ));
    }
    let mut spawned: u32 = 0;
    while spawned < THREAD_COUNT
        invariant
            spawned <= THREAD_COUNT,
            reg.wf(),
            reg.state() is Initialized,
            "my_test_mutex"@ != "my_test_mutex2"@,
            "my_test_mutex"@ != "my_test_mutex3"@,
            reg.table() == old(reg).table().insert(
                "my_test_mutex2"@,
                StoredValue::U32(GRT_RESULT_VAL),
            ).insert("my_test_mutex3"@, StoredValue::U32(GRT_RESULT_VAL)).insert(
                "my_test_mutex"@,
                StoredValue::U32((spawned * GRT_INCREMENTS_PER_THREAD) as u32),
            ),
        decreases THREAD_COUNT - spawned,
    {
        callback_fn_grt(reg);
        spawned += 1;
        proof {
            grt_keys_distinct();
            assert(reg.table() =~= old(reg).table().insert(
                "my_test_mutex2"@,
                StoredValue::U32(GRT_RESULT_VAL),
            ).insert("my_test_mutex3"@, StoredValue::U32(GRT_RESULT_VAL)).insert(
                "my_test_mutex"@,
                StoredValue::U32((spawned * GRT_INCREMENTS_PER_THREAD) as u32),
            ));
        }
    }
    let my_mut = reg.get_u32("my_test_mutex");
    let current = match my_mut {
        Ok(v) => v,
        Err(_) => {
            return Err(());
        },
    };
    if current != GRT_RESULT_VAL {
        return Err(());
    }
    proof {
        grt_keys_distinct();
        assert(reg.table() =~= old(reg).table().insert(
            "my_test_mutex"@,
            StoredValue::U32(GRT_RESULT_VAL),
        ).insert("my_test_mutex2"@, StoredValue::U32(GRT_RESULT_VAL)).insert(
            "my_test_mutex3"@,
            StoredValue::U32(GRT_RESULT_VAL),
        ));
    }
    Ok(())
}

/// One worker of the first registry-mediated scenario:
/// `GRT_INCREMENTS_PER_THREAD` protected increments of the counter under this
/// scenario's key, each found by a fresh lookup. A lookup failure makes the
/// worker give up early, the error swallowed and the registry left as found.
fn callback_fn_grt(reg: &mut Registry)
    requires
        old(reg).wf(),
        lookup(old(reg).state(), old(reg).table(), "my_test_mutex"@, TypeTag::U32) matches Ok(sv)
            ==> (sv matches StoredValue::U32(v) && v + GRT_INCREMENTS_PER_THREAD <= u32::MAX),
    ensures
        final(reg).wf(),
        final(reg).state() == old(reg).state(),
        lookup(old(reg).state(), old(reg).table(), "my_test_mutex"@, TypeTag::U32) matches Ok(sv)
            ==> (sv matches StoredValue::U32(v) && final(reg).table() == old(reg).table().insert(
            "my_test_mutex"@,
            StoredValue::U32((v + GRT_INCREMENTS_PER_THREAD) as u32),
        )),
        lookup(old(reg).state(), old(reg).table(), "my_test_mutex"@, TypeTag::U32) is Err
            ==> final(reg).table() == old(reg).table(),
{
    registry_worker(reg, "my_test_mutex", GRT_INCREMENTS_PER_THREAD);
}

/// The second registry-mediated scenario, run from inside the first: register
/// its own key, run the third scenario, then join this one's workers and
/// check the counter. A registration failure — including a duplicate key,
/// whose stored value then remains what it was — is reported with the
/// registry unchanged; a failure of the nested scenario is reported with this
/// scenario's zero-valued registration kept, not rolled back; on a clean run
/// this scenario's key and the third's both end at `GRT_RESULT_VAL`.
pub fn test_grt2(reg: &mut Registry) -> (r: Result<(), ()>)
    requires
        old(reg).wf(),
    ensures
        final(reg).wf(),
        final(reg).state() == old(reg).state(),
        !(old(reg).state() is Initialized && !old(reg).table().contains_key("my_test_mutex2"@))
            ==> r is Err && final(reg).table() == old(reg).table(),
        (old(reg).state() is Initialized && !old(reg).table().contains_key("my_test_mutex2"@)
            && old(reg).table().contains_key("my_test_mutex3"@)) ==> r is Err && final(reg).table() == old(reg).table().insert("my_test_mutex2"@, StoredValue::U32(0)),
        (old(reg).state() is Initialized && !old(reg).table().contains_key("my_test_mutex2"@)
            && !old(reg).table().contains_key("my_test_mutex3"@)) ==> r is Ok && final(reg).table() == old(reg).table().insert(
            "my_test_mutex2"@,
            StoredValue::U32(GRT_RESULT_VAL),
        ).insert("my_test_mutex3"@, StoredValue::U32(GRT_RESULT_VAL)),
{
    proof {
        grt_keys_distinct();
    }
    if let Err(_) = reg.register_u32("my_test_mutex2", 0) {
        return Err(());
    }
    match test_grt3(reg) {
        Ok(()) => {},
        Err(()) => {
            // the nested scenario failed: this scenario's zero-valued
            // registration stays, not rolled back
            return Err(());
        },
    }
    proof {
        grt_keys_distinct();
        assert(reg.table() =~= old(reg).table().insert(
            "my_test_mutex3"@,
            StoredValue::U32(GRT_RESULT_VAL),
        ).insert("my_test_mutex2"@, StoredValue::U32(0)));
    }
    let mut spawned: u32 = 0;
    while spawned < THREAD_COUNT
        invariant
            spawned <= THREAD_COUNT,
            reg.wf(),
            reg.state() is Initialized,
            "my_test_mutex2"@ != "my_test_mutex3"@,
            reg.table() == old(reg).table().insert(
                "my_test_mutex3"@,
                StoredValue::U32(GRT_RESULT_VAL),
            ).insert(
                "my_test_mutex2"@,
                StoredValue::U32((spawned * GRT_INCREMENTS_PER_THREAD) as u32),
            ),
        decreases THREAD_COUNT - spawned,
    {
        callback_fn_grt_2(reg);
        spawned += 1;
        proof {
            grt_keys_distinct();
            assert(reg.table() =~= old(reg).table().insert(
                "my_test_mutex3"@,
                StoredValue::U32(GRT_RESULT_VAL),
            ).insert(
                "my_test_mutex2"@,
                StoredValue::U32((spawned * GRT_INCREMENTS_PER_THREAD) as u32),
            ));
        }
    }
    let my_mut = reg.get_u32("my_test_mutex2");
    let current = match my_mut {
        Ok(v) => v,
        Err(_) => {
            return Err(());
        },
    };
    if current != GRT_RESULT_VAL {
        return Err(());
    }
    proof {
        grt_keys_distinct();
        assert(reg.table() =~= old(reg).table().insert(
            "my_test_mutex2"@,
            StoredValue::U32(GRT_RESULT_VAL),
        ).insert("my_test_mutex3"@, StoredValue::U32(GRT_RESULT_VAL)));
    }
    Ok(())
}

/// One worker of the second registry-mediated scenario; it gives up early,
/// the error swallowed, when its key cannot be looked up.
fn callback_fn_grt_2(reg: &mut Registry)
    requires
        old(reg).wf(),
        lookup(old(reg).state(), old(reg).table(), "my_test_mutex2"@, TypeTag::U32) matches Ok(sv)
            ==> (sv matches StoredValue::U32(v) && v + GRT_INCREMENTS_PER_THREAD <= u32::MAX),
    ensures
        final(reg).wf(),
        final(reg).state() == old(reg).state(),
        lookup(old(reg).state(), old(reg).table(), "my_test_mutex2"@, TypeTag::U32) matches Ok(sv)
            ==> (sv matches StoredValue::U32(v) && final(reg).table() == old(reg).table().insert(
            "my_test_mutex2"@,
            StoredValue::U32((v + GRT_INCREMENTS_PER_THREAD) as u32),
        )),
        lookup(old(reg).state(), old(reg).table(), "my_test_mutex2"@, TypeTag::U32) is Err
            ==> final(reg).table() == old(reg).table(),
{
    registry_worker(reg, "my_test_mutex2", GRT_INCREMENTS_PER_THREAD);
}

/// The third registry-mediated scenario, run from inside the second: register
/// its own key, join its workers, check the counter. A registration failure
/// is reported with the registry unchanged; on a clean run the key ends at
/// `GRT_RESULT_VAL`.
pub fn test_grt3(reg: &mut Registry) -> (r: Result<(), ()>)
    requires
        old(reg).wf(),
    ensures
        final(reg).wf(),
        final(reg).state() == old(reg).state(),
        (old(reg).state() is Initialized && !old(reg).table().contains_key("my_test_mutex3"@))
            ==> r is Ok && final(reg).table() == old(reg).table().insert(
            "my_test_mutex3"@,
            StoredValue::U32(GRT_RESULT_VAL),
        ),
        !(old(reg).state() is Initialized && !old(reg).table().contains_key("my_test_mutex3"@))
            ==> r is Err && final(reg).table() == old(reg).table(),
{
    if let Err(_) = reg.register_u32("my_test_mutex3", 0) {
        return Err(());
    }
    let mut spawned: u32 = 0;
    while spawned < THREAD_COUNT
        invariant
            spawned <= THREAD_COUNT,
            reg.wf(),
            reg.state() is Initialized,
            reg.table() == old(reg).table().insert(
                "my_test_mutex3"@,
                StoredValue::U32((spawned * GRT_INCREMENTS_PER_THREAD) as u32),
            ),
        decreases THREAD_COUNT - spawned,
    {
        callback_fn_grt_3(reg);
        spawned += 1;
        proof {
            assert(reg.table() =~= old(reg).table().insert(
                "my_test_mutex3"@,
                StoredValue::U32((spawned * GRT_INCREMENTS_PER_THREAD) as u32),
            ));
        }
    }
    let my_mut = reg.get_u32("my_test_mutex3");
    let current = match my_mut {
        Ok(v) => v,
        Err(_) => {
            return Err(());
        },
    };
    if current != GRT_RESULT_VAL {
        return Err(());
    }
    Ok(())
}

/// One worker of the third registry-mediated scenario; it gives up early,
/// the error swallowed, when its key cannot be looked up.
fn callback_fn_grt_3(reg: &mut Registry)
    requires
        old(reg).wf(),
        lookup(old(reg).state(), old(reg).table(), "my_test_mutex3"@, TypeTag::U32) matches Ok(sv)
            ==> (sv matches StoredValue::U32(v) && v + GRT_INCREMENTS_PER_THREAD <= u32::MAX),
    ensures
        final(reg).wf(),
        final(reg).state() == old(reg).state(),
        lookup(old(reg).state(), old(reg).table(), "my_test_mutex3"@, TypeTag::U32) matches Ok(sv)
            ==> (sv matches StoredValue::U32(v) && final(reg).table() == old(reg).table().insert(
            "my_test_mutex3"@,
            StoredValue::U32((v + GRT_INCREMENTS_PER_THREAD) as u32),
        )),
        lookup(old(reg).state(), old(reg).table(), "my_test_mutex3"@, TypeTag::U32) is Err
            ==> final(reg).table() == old(reg).table(),
{
    registry_worker(reg, "my_test_mutex3", GRT_INCREMENTS_PER_THREAD);
}

} // verus!
