//! Logic of the guest programs: the busy work of the deliberately failing
//! child, the frame decision of its unbounded recursion, and the worker
//! threads of the async guest's executor.

use vstd::prelude::*;
use vstd::string::*;
use vstd::wrapping::u64_specs;
use crate::number::{format_u64, spec_decimal};

verus! {

/// The busy-work iterations per frame of the failing child by default.
pub const DEFAULT_BURN_ITERS: u64 = 1700000;
/// The burn value at which the failing child's recursion would stop; no
/// burn is expected to reach it, so the recursion runs the stack out.
pub const STOP_AT: u64 = u64::MAX;
/// Mixed into the frame depth before the busy work.
pub const BURN_SEED: u64 = 0x9e37_79b9_7f4a_7c15;
/// Multiplier of a busy-work round.
pub const BURN_MUL: u64 = 0xbf58_476d_1ce4_e5b9;
/// Addend of a busy-work round.
pub const BURN_ADD: u64 = 0x94d0_49bb_1331_11eb;

/// `x` rotated left by `n` bits, for `0 < n < 64`.
pub open spec fn spec_rotate_left(x: u64, n: u32) -> u64 {
    (x << n) | (x >> ((64 - n) as u32))
}

/// Rotates the bits of `x` left by `n` places: the bits shifted out at the
/// top come back in at the low end.
fn rotate_left(x: u64, n: u32) -> (r: u64)
    requires
        0 < n < 64,
    ensures
        r == spec_rotate_left(x, n),
{
    (x << n) | (x >> (64 - n))
}

/// Calls `std::hint::black_box`, which returns its argument unchanged
/// while keeping the optimizer from seeing through it.
#[verifier::external_body]
fn black_box(v: u64) -> (r: u64)
    ensures
        r == v,
{
    std::hint::black_box(v)
}

/// One round of busy work.
pub open spec fn spec_burn_round(v: u64) -> u64 {
    u64_specs::wrapping_add(u64_specs::wrapping_mul(spec_rotate_left(v, 7), BURN_MUL), BURN_ADD)
}

/// `k` rounds of busy work starting from `v`.
pub open spec fn spec_burn_rounds(v: u64, k: nat) -> u64
    decreases k,
{
    if k == 0 {
        v
    } else {
        spec_burn_rounds(spec_burn_round(v), (k - 1) as nat)
    }
}

/// The busy work of a frame at `depth`.
pub open spec fn spec_burn(depth: u64, iters: u64) -> u64 {
    spec_burn_rounds(depth ^ BURN_SEED, iters as nat)
}

/// Does `iters` rounds of busy work for the frame at `depth`.
pub fn burn(depth: u64, iters: u64) -> (value: u64)
    ensures
        value == spec_burn(depth, iters),
{
    let mut value = depth ^ BURN_SEED;
    let mut i: u64 = 0;
    while i < iters
        invariant
            i <= iters,
            spec_burn_rounds(value, (iters - i) as nat) == spec_burn(depth, iters),
        decreases iters - i,
    {
        value = rotate_left(value, 7).wrapping_mul(BURN_MUL).wrapping_add(BURN_ADD);
        value = black_box(value);
        i = i + 1;
    }
    value
}

/// What a frame of the failing child's recursion does.
#[derive(Clone, Copy, Debug, PartialEq, Eq)]
pub enum OverflowFrame {
    /// The burn value hit the stop value: return this depth.
    Return { depth: u64 },
    /// Recurse into the frame at this depth, then add 1 to its result.
    Recurse { depth: u64 },
}

/// Decides what the frame at `depth` does.
pub fn overflow_frame(depth: u64, iters: u64, stop_at: u64) -> (frame: OverflowFrame)
    ensures
        spec_burn(depth, iters) == stop_at ==> frame == (OverflowFrame::Return { depth }),
        spec_burn(depth, iters) != stop_at ==> frame == (OverflowFrame::Recurse {
            depth: u64_specs::wrapping_add(depth, 1),
        }),
{
    let value = burn(depth, iters);
    if stop_at == black_box(value) {
        OverflowFrame::Return { depth }
    } else {
        OverflowFrame::Recurse { depth: depth.wrapping_add(1) }
    }
}

/// What a frame returns after the deeper frame returned `inner`.
pub fn overflow_unwind(inner: u64) -> (result: u64)
    ensures
        result == u64_specs::wrapping_add(inner, 1),
{
    inner.wrapping_add(1)
}

/// How many threads run the async guest's executor: at least one.
pub open spec fn spec_worker_count(requested: usize) -> nat {
    if requested == 0 {
        1
    } else {
        requested as nat
    }
}

/// The names of the extra executor threads (the calling thread is the
/// first worker): `guest-async-worker-1` up to one less than the worker
/// count.
pub open spec fn spec_worker_thread_names(requested: usize) -> Seq<Seq<char>> {
    Seq::new((spec_worker_count(requested) - 1) as nat, |i: int| "guest-async-worker-"@ + spec_decimal((i + 1) as nat))
}

/// Names the extra threads that run the async guest's executor.
pub fn worker_thread_names(requested: usize) -> (names: Vec<String>)
    ensures
        names@.map_values(|s: String| s@) == spec_worker_thread_names(requested),
{
    let workers: usize = if requested == 0 {
        1
    } else {
        requested
    };
    let mut names: Vec<String> = Vec::new();
    let mut index: usize = 1;
    while index < workers
        invariant
            1 <= index <= workers,
            workers == spec_worker_count(requested),
            names@.len() == index - 1,
            forall|i: int|
                0 <= i < names@.len() ==> names@[i]@ == "guest-async-worker-"@ + spec_decimal((i + 1) as nat),
        decreases workers - index,
    {
        let mut name = String::from_str("guest-async-worker-");
        name.append(format_u64(index as u64).as_str());
        names.push(name);
        index = index + 1;
    }
    proof {
        assert(names@.map_values(|s: String| s@) =~= spec_worker_thread_names(requested));
    }
    names
}

} // verus!
