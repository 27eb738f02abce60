use vstd::prelude::*;

use crate::cell::{ExecLevel, GuardedCell};
use crate::harness::{blocking_worker, INCREMENTS_PER_THREAD, RESULT_VAL, THREAD_COUNT};
use crate::pool::Pool;

verus! {

/// The named scenarios of the correctness harness that exercise the blocking
/// guarded cell: repeated protected mutation through a shared cell, the same
/// through a cell that addresses a manually allocated block, and the two
/// value-extraction checks. Each returns its verdict, and each verdict is
/// proved to be a pass.
pub struct KMutexTest {}

impl KMutexTest {
    /// Exercise the blocking cell with `THREAD_COUNT` workers, each performing
    /// `INCREMENTS_PER_THREAD` protected increments on a zero-initialized
    /// shared counter. Passes exactly when the final value read back under the
    /// lock is `RESULT_VAL`: with every worker joined, mutual exclusion lets
    /// no update be lost, so the verdict is proved to be a pass.
    pub fn test_multithread_mutex_global_static() -> (passed: bool)
        ensures
            passed,
    {
        let mut cell = match GuardedCell::new(0u32) {
            Ok(c) => c,
            Err(_) => {
                proof {
                    assert(false);
                }
                vstd::pervasive::unreached()
            },
        };
        let mut spawned: u32 = 0;
        while spawned < THREAD_COUNT
            invariant
                spawned <= THREAD_COUNT,
                !cell.is_locked(),
                cell.value() == spawned * INCREMENTS_PER_THREAD,
            decreases THREAD_COUNT - spawned,
        {
            Self::callback_test_multithread_mutex_global_static(&mut cell, ExecLevel::Passive);
            spawned += 1;
        }
        let guard = match cell.lock(ExecLevel::Passive) {
            Ok(g) => g,
            Err(_) => {
                proof {
                    assert(false);
                }
                vstd::pervasive::unreached()
            },
        };
        let final_value = *guard.get();
        cell.unlock(guard);
        final_value == RESULT_VAL
    }

    /// One worker of the shared-counter scenario: `INCREMENTS_PER_THREAD`
    /// protected increments at `Passive` level.
    fn callback_test_multithread_mutex_global_static(cell: &mut GuardedCell<u32>, level: ExecLevel)
        requires
            !old(cell).is_locked(),
            old(cell).value() + INCREMENTS_PER_THREAD <= u32::MAX,
            level is Passive,
        ensures
            !final(cell).is_locked(),
            final(cell).value() == old(cell).value() + INCREMENTS_PER_THREAD,
    {
        blocking_worker(cell, INCREMENTS_PER_THREAD, level);
    }

    /// The shared-counter scenario again, but the counter lives in a manually
    /// allocated pool block and the cell owns only the handle to it. The
    /// split ownership ends with the explicit two-step release: read the
    /// final value and take the handle out under the lock, free the block,
    /// then drop the cell. The verdict is proved to be a pass.
    pub fn test_multithread_mutex_global_static_manual_pool() -> (passed: bool)
        ensures
            passed,
    {
        let mut pool = Pool::new();
        let handle = match pool.allocate(0) {
            Ok(h) => h,
            Err(_) => {
                proof {
                    assert(false);
                }
                vstd::pervasive::unreached()
            },
        };
        let mut cell = match GuardedCell::new(handle) {
            Ok(c) => c,
            Err(_) => {
                proof {
                    assert(false);
                }
                vstd::pervasive::unreached()
            },
        };
        let mut spawned: u32 = 0;
        while spawned < THREAD_COUNT
            invariant
                spawned <= THREAD_COUNT,
                !cell.is_locked(),
                cell.value() == handle,
                pool.is_live(handle),
                pool.value_at(handle) == spawned * INCREMENTS_PER_THREAD,
            decreases THREAD_COUNT - spawned,
        {
            Self::callback_test_multithread_mutex_global_static_manual_pool(
                &mut cell,
                &mut pool,
                ExecLevel::Passive,
            );
            spawned += 1;
        }
        let guard = match cell.lock(ExecLevel::Passive) {
            Ok(g) => g,
            Err(_) => {
                proof {
                    assert(false);
                }
                vstd::pervasive::unreached()
            },
        };
        let h = *guard.get();
        let final_value = pool.read(h);
        cell.unlock(guard);
        // the two-step release: the harness owns the block, the cell owned
        // only the handle — free the block first, then let the cell drop
        pool.free(h);
        final_value == RESULT_VAL
    }

    /// One worker of the manual-pool scenario: acquire the cell's lock, read
    /// the handle it guards, increment the counter in the addressed block,
    /// release, `INCREMENTS_PER_THREAD` times. The block itself is mutated
    /// only while the handle's cell is held, so the exclusivity of the cell
    /// protects the block.
    fn callback_test_multithread_mutex_global_static_manual_pool(
        cell: &mut GuardedCell<usize>,
        pool: &mut Pool,
        level: ExecLevel,
    )
        requires
            !old(cell).is_locked(),
            old(pool).is_live(old(cell).value()),
            old(pool).value_at(old(cell).value()) + INCREMENTS_PER_THREAD <= u32::MAX,
            level is Passive,
        ensures
            !final(cell).is_locked(),
            final(cell).value() == old(cell).value(),
            final(pool).blocks() =~= old(pool).blocks().update(
                old(cell).value() as int,
                Some((old(pool).value_at(old(cell).value()) + INCREMENTS_PER_THREAD) as u32),
            ),
    {
        let ghost h0 = old(cell).value();
        let ghost v0 = old(pool).value_at(h0);
        let mut done: u32 = 0;
        while done < INCREMENTS_PER_THREAD
            invariant
                done <= INCREMENTS_PER_THREAD,
                v0 + INCREMENTS_PER_THREAD <= u32::MAX,
                !cell.is_locked(),
                cell.value() == h0,
                h0 < old(pool).blocks().len(),
                pool.blocks() =~= old(pool).blocks().update(h0 as int, Some((v0 + done) as u32)),
                pool.is_live(h0),
                pool.value_at(h0) == v0 + done,
                level is Passive,
            decreases INCREMENTS_PER_THREAD - done,
        {
            let mut guard = match cell.lock(level) {
                Ok(g) => g,
                Err(_) => {
                    proof {
                        assert(false);
                    }
                    vstd::pervasive::unreached()
                },
            };
            let h = *guard.get();
            let v = pool.read(h);
            pool.write(h, v + 1);
            cell.unlock(guard);
            done += 1;
            proof {
                assert(pool.blocks() =~= old(pool).blocks().update(
                    h0 as int,
                    Some((v0 + done) as u32),
                ));
            }
        }
    }

    /// Extraction check: after one protected increment of a zero-initialized
    /// cell, `to_owned` yields the incremented value. The verdict is proved
    /// to be a pass.
    pub fn test_to_owned() -> (passed: bool)
        ensures
            passed,
    {
        let mut m = match GuardedCell::new(0u8) {
            Ok(c) => c,
            Err(_) => {
                proof {
                    assert(false);
                }
                vstd::pervasive::unreached()
            },
        };
        {
            let mut guard = match m.lock(ExecLevel::Passive) {
                Ok(g) => g,
                Err(_) => {
                    proof {
                        assert(false);
                    }
                    vstd::pervasive::unreached()
                },
            };
            let v = *guard.get();
            guard.set(v + 1);
            m.unlock(guard);
        }
        let x = m.to_owned();
        if x == 1 {
            true
        } else {
            false
        }
    }

    /// Extraction check: like `test_to_owned`, through the heap-allocated
    /// handle that `to_owned_box` returns. The verdict is proved to be a
    /// pass.
    pub fn test_to_owned_box() -> (passed: bool)
        ensures
            passed,
    {
        let mut m = match GuardedCell::new(0u8) {
            Ok(c) => c,
            Err(_) => {
                proof {
                    assert(false);
                }
                vstd::pervasive::unreached()
            },
        };
        {
            let mut guard = match m.lock(ExecLevel::Passive) {
                Ok(g) => g,
                Err(_) => {
                    proof {
                        assert(false);
                    }
                    vstd::pervasive::unreached()
                },
            };
            let v = *guard.get();
            guard.set(v + 1);
            m.unlock(guard);
        }
        let x = m.to_owned_box();
        if *x == 1 {
            true
        } else {
            false
        }
    }
}

} // verus!
