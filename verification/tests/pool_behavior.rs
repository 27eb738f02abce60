use guarded_registry::fast_cell::FastGuardedCell;
use guarded_registry::pool::Pool;

#[test]
fn allocate_read_write_free() {
    let mut pool = Pool::new();
    let a = pool.allocate(5).unwrap();
    let b = pool.allocate(9).unwrap();
    assert_ne!(a, b);
    assert_eq!(pool.read(a), 5);
    assert_eq!(pool.read(b), 9);
    pool.write(a, 6);
    assert_eq!(pool.read(a), 6);
    assert_eq!(pool.read(b), 9);
    pool.free(a);
    assert_eq!(pool.read(b), 9);
}

#[test]
fn two_step_release_of_a_cell_owned_handle() {
    // the cell owns the handle; the caller owns the block: extract the value,
    // free the block, then drop the cell
    let mut pool = Pool::new();
    let handle = pool.allocate(0).unwrap();
    let mut cell = FastGuardedCell::new(handle).unwrap();

    let mut guard = cell.lock().unwrap();
    let h = *guard.get();
    let v = pool.read(h);
    pool.write(h, v + 1);
    guard.set(h);
    cell.unlock(guard);

    let h = cell.to_owned();
    assert_eq!(pool.read(h), 1);
    pool.free(h);
    drop(cell);
}
