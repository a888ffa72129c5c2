//! Run lifecycle hooks and identity probes.
//!
//! These are the computational halves of the host-facing entry points:
//! the exported, calling-convention-fixed functions that the host links
//! against are thin shells around these, kept outside the verified
//! library.

use vstd::prelude::*;

verus! {

/// Sentinel returned by [`identity_probe`], used by the host to confirm
/// that the raw C link is wired to the expected build.
pub const EXTERN_C_SENTINEL: i32 = 322;

/// Sentinel returned by [`rusty_cxxbridge_integer`], used by the host to
/// confirm that the typed-bridge link is wired to the expected build.
pub const CXXBRIDGE_SENTINEL: i32 = 42;

/// Signals the beginning of an evaluation run. Reserved for future
/// setup work; today it only acknowledges, and always succeeds.
pub fn rust_start() -> (r: bool)
    ensures
        r == true,
{
    true
}

/// Signals the end of an evaluation run, receiving four opaque summary
/// words from the host. Returns true exactly when the sum of the four
/// words is zero — a placeholder sentinel check, kept literally until
/// the host protocol assigns the words a meaning.
pub fn rust_finish(f0: u64, f1: u64, f2: u64, f3: u64) -> (r: bool)
    ensures
        r <==> f0 + f1 + f2 + f3 == 0,
{
    f0 == 0 && f1 == 0 && f2 == 0 && f3 == 0
}

/// Identity probe for the raw C binding: always the same sentinel,
/// regardless of any prior calls.
pub fn identity_probe() -> (r: i32)
    ensures
        r == EXTERN_C_SENTINEL,
{
    322
}

/// Identity probe for the typed cross-language bridge: always the same
/// sentinel, deliberately different from [`identity_probe`]'s so the two
/// binding mechanisms stay separately verifiable.
pub fn rusty_cxxbridge_integer() -> (r: i32)
    ensures
        r == CXXBRIDGE_SENTINEL,
{
    42
}

/// Reserved per-branch hook of the raw C surface, taking the branch's
/// program counter and actual direction. The slot-aware bookkeeping
/// lives in [`crate::registry::SlotRegistry::report_branch`]; this hook
/// deliberately touches nothing.
pub fn predict_branch(pc: u64, direction: bool) {
}

} // verus!
