use guarded_registry::cell::{ExecLevel, GuardedCell};
use guarded_registry::fast_cell::FastGuardedCell;

#[test]
fn lock_mutate_unlock_round_trip() {
    let mut cell = GuardedCell::new(7u32).unwrap();
    let mut guard = cell.lock(ExecLevel::Passive).unwrap();
    assert_eq!(*guard.get(), 7);
    guard.set(8);
    cell.unlock(guard);
    assert_eq!(cell.to_owned(), 8);
}

#[test]
fn fast_lock_mutate_unlock_round_trip() {
    let mut cell = FastGuardedCell::new(7u32).unwrap();
    let mut guard = cell.lock().unwrap();
    assert_eq!(*guard.get(), 7);
    guard.set(8);
    cell.unlock(guard);
    assert_eq!(cell.to_owned(), 8);
}

#[test]
fn guard_into_inner_yields_held_value() {
    let mut cell = GuardedCell::new(3u8).unwrap();
    let guard = cell.lock(ExecLevel::Passive).unwrap();
    assert_eq!(guard.into_inner(), 3);
}

#[test]
fn extraction_equivalence_and_no_side_effect() {
    let mut cell = GuardedCell::new(42u32).unwrap();
    let owned = cell.to_owned();
    let boxed = cell.to_owned_box();
    assert_eq!(owned, *boxed);
    // neither extraction mutated the cell: a later lock sees the same value
    let guard = cell.lock(ExecLevel::Passive).unwrap();
    assert_eq!(*guard.get(), 42);
    cell.unlock(guard);
}

#[test]
fn fast_extraction_equivalence_and_no_side_effect() {
    let mut cell = FastGuardedCell::new(42u32).unwrap();
    let owned = cell.to_owned();
    let boxed = cell.to_owned_box();
    assert_eq!(owned, *boxed);
    let guard = cell.lock().unwrap();
    assert_eq!(*guard.get(), 42);
    cell.unlock(guard);
}

#[test]
fn to_owned_box_of_move_heavy_value() {
    let cell = GuardedCell::new(1234567890u64).unwrap();
    let boxed = cell.to_owned_box();
    assert_eq!(*boxed, 1234567890u64);
}
