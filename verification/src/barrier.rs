//! The two-tier cross-thread memory barrier.
//!
//! A process chooses, once, between an OS-assisted strategy (the kernel's
//! expedited private membarrier facility, when the probe and registration
//! succeed) and a portable fallback. Under the OS-assisted strategy the
//! strong tier asks the kernel to fence every thread of the process and
//! the light tier only pins the compiler; under the fallback both tiers
//! are the same full local fence.
//!
//! The kernel call itself and the process-wide cache of the chosen
//! strategy cannot stand in verified code, so the embedding program makes
//! the call and keeps the cache; this module holds every decision — what
//! the probe's answers mean, which strategy follows, what each tier must
//! perform, and when a failed barrier command is fatal — and performs the
//! local fences.

use vstd::prelude::*;

verus! {

/// Command number that asks the kernel which membarrier commands it
/// supports; the answer is a bitmask of commands, negative on error.
pub const MEMBARRIER_CMD_QUERY: i32 = 0;

/// Bitmask position of the expedited private membarrier command.
pub const MEMBARRIER_CMD_PRIVATE_EXPEDITED: i32 = 1 << 3;

/// Bitmask position of the command registering the calling process as a
/// user of the expedited private membarrier.
pub const MEMBARRIER_CMD_REGISTER_PRIVATE_EXPEDITED: i32 = 1 << 4;

/// The process-wide barrier strategy, selected once and read ever after.
#[derive(Clone, Copy, Debug, PartialEq, Eq, Structural)]
pub enum Strategy {
    /// The kernel's expedited private membarrier backs the strong tier.
    Membarrier,
    /// No OS assistance: both tiers are full local fences.
    Fallback,
}

/// What one barrier call performs.
#[derive(Clone, Copy, Debug, PartialEq, Eq, Structural)]
pub enum Fence {
    /// The kernel fences every thread of the process. The caller must
    /// now issue the membarrier command and treat failure as fatal.
    ProcessWide,
    /// A full, sequentially consistent local hardware fence, performed.
    Full,
    /// A compiler-only fence, performed: no hardware cost, reordering at
    /// compile time prevented.
    CompilerOnly,
}

/// Relies on `std::sync::atomic::fence`: with `Ordering::SeqCst` it
/// performs a full sequentially consistent hardware fence and returns.
#[verifier::external_body]
fn full_fence() {
    std::sync::atomic::fence(std::sync::atomic::Ordering::SeqCst);
}

/// Relies on `std::sync::atomic::compiler_fence`: with `Ordering::SeqCst`
/// it restricts only compile-time reordering and returns; no instruction
/// is emitted.
#[verifier::external_body]
fn compiler_only_fence() {
    std::sync::atomic::compiler_fence(std::sync::atomic::Ordering::SeqCst);
}

/// Whether the kernel's answer to the query command announces both the
/// expedited private barrier and its register command.
pub open spec fn spec_query_ok(ret: i64) -> bool {
    &&& ret >= 0
    &&& ret & (MEMBARRIER_CMD_PRIVATE_EXPEDITED as i64) != 0
    &&& ret & (MEMBARRIER_CMD_REGISTER_PRIVATE_EXPEDITED as i64) != 0
}

/// Decide the first half of the probe: a negative answer or one missing
/// either needed command rejects the OS-assisted strategy.
pub fn query_ok(ret: i64) -> (r: bool)
    ensures
        r == spec_query_ok(ret),
{
    ret >= 0 && ret & (MEMBARRIER_CMD_PRIVATE_EXPEDITED as i64) != 0 && ret
        & (MEMBARRIER_CMD_REGISTER_PRIVATE_EXPEDITED as i64) != 0
}

/// The probe's verdict from the two kernel answers: the query must
/// announce both commands and the registration, attempted only then,
/// must not fail. A `false` is no error — the fallback strategy is
/// simply selected.
pub fn is_supported(query_ret: i64, register_ret: i64) -> (r: bool)
    ensures
        r == (spec_query_ok(query_ret) && register_ret >= 0),
{
    query_ok(query_ret) && register_ret >= 0
}

/// The strategy that follows from the probe's verdict.
pub fn select_strategy(supported: bool) -> (s: Strategy)
    ensures
        s == (if supported {
            Strategy::Membarrier
        } else {
            Strategy::Fallback
        }),
{
    if supported {
        Strategy::Membarrier
    } else {
        Strategy::Fallback
    }
}

/// The verdict on the expedited private barrier command's return, once
/// the OS-assisted strategy is in force: `false` means the command
/// failed, and the process must abort at once — a skipped barrier would
/// let freed memory be read.
pub fn barrier(ret: i64) -> (ok: bool)
    ensures
        ok <==> ret >= 0,
{
    ret >= 0
}

/// What the strong tier performs under each strategy.
pub open spec fn spec_strong_fence(s: Strategy) -> Fence {
    match s {
        Strategy::Membarrier => Fence::ProcessWide,
        Strategy::Fallback => Fence::Full,
    }
}

/// What the light tier performs under each strategy.
pub open spec fn spec_light_fence(s: Strategy) -> Fence {
    match s {
        Strategy::Membarrier => Fence::CompilerOnly,
        Strategy::Fallback => Fence::Full,
    }
}

/// The strong barrier: once it is complete, every other running thread
/// has observed a full fence. Under the fallback strategy the local full
/// fence is performed here; under the OS-assisted strategy the caller
/// must follow up with the kernel command, as the returned
/// [`Fence::ProcessWide`] demands.
#[must_use]
pub fn strong_barrier(s: Strategy) -> (f: Fence)
    ensures
        f == spec_strong_fence(s),
{
    match s {
        Strategy::Membarrier => Fence::ProcessWide,
        Strategy::Fallback => {
            full_fence();
            Fence::Full
        },
    }
}

/// The light barrier: under the OS-assisted strategy a remote strong
/// barrier already orders the hardware, so pinning the compiler is
/// enough; without OS assistance nothing cheaper than the full fence is
/// correct, and the full fence is performed. Both fences happen here;
/// the result only reports which one was chosen.
pub fn light_barrier(s: Strategy) -> (f: Fence)
    ensures
        f == spec_light_fence(s),
{
    match s {
        Strategy::Membarrier => {
            compiler_only_fence();
            Fence::CompilerOnly
        },
        Strategy::Fallback => {
            full_fence();
            Fence::Full
        },
    }
}

/// Under the fallback strategy there is no cheaper light tier: both
/// barriers perform the identical full fence. This is deliberate, not an
/// oversight — no cheaper globally correct alternative exists without OS
/// assistance.
pub proof fn lemma_fallback_tiers_agree()
    ensures
        spec_strong_fence(Strategy::Fallback) == spec_light_fence(Strategy::Fallback),
{
}

} // verus!
