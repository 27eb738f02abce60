//! A locking primitive layer and its correctness harness: a guarded cell that
//! grants scoped exclusive access to one owned value, a spinning variant that
//! is safe at an elevated execution level where blocking waits are forbidden,
//! a name-keyed registry of type-erased guarded cells with a checked lifecycle,
//! a manually managed memory pool with an explicit two-step release protocol,
//! and scenario runners that exercise repeated protected mutation and prove
//! that no update is ever lost.

pub mod cell;
pub mod driver;
pub mod errors;
pub mod fast_cell;
pub mod fast_scenarios;
pub mod harness;
pub mod kmutex_scenarios;
pub mod pool;
pub mod registry;

pub mod utils;
