//! Statistics-tracking core for a branch-predictor evaluation harness.
//!
//! The library keeps a fixed set of predictor slots, each holding the
//! confusion-matrix counters for one predictor, and offers the run
//! lifecycle hooks that a host simulator drives. The process-wide
//! registry instance, the lock that guards it, and the C-callable
//! exports live outside this crate; everything here is plain sequential
//! logic with a proved contract.

pub mod api;
pub mod laws;
pub mod registry;
pub mod slot;

pub use registry::SlotError;
pub use registry::SlotRegistry;
pub use slot::TestResult;
