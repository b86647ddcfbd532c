//! Host-side harness for exercising sandboxed mapping modules against a
//! simulated world: an in-memory entity store, a registry of canned
//! external-call results, an ordered ledger of test outcomes and log lines,
//! a classifier for low-level execution faults, and the bookkeeping that
//! decides whether a handler invocation commits or rolls back its effects.

pub mod errors;
pub mod host;
pub mod ledger;
pub mod store;
pub mod stubs;
pub mod text;
pub mod trap;
pub mod value;
pub mod wasm_instance;
pub mod watchdog;
