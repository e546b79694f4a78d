//! What the platform says about coroutine stacks.

use vstd::prelude::*;

verus! {

/// No platform accepts a stack of fewer bytes than this.
pub const FLOOR_MIN: usize = 1200;

/// Every platform accepts a stack of this many bytes.
pub const FLOOR_MAX: usize = 49152;

/// Whether `floor` can be a platform's smallest stack, in bytes.
pub open spec fn is_floor(floor: usize) -> bool {
    FLOOR_MIN <= floor <= FLOOR_MAX
}

/// Reads `libc::MINSIGSTKSZ`, the least size of a signal stack. libc sets
/// it target by target, so which value comes back is left open. What is
/// claimed is the range of the values that libc gives it: none is under
/// [`FLOOR_MIN`] and none is over [`FLOOR_MAX`].
#[verifier::external_body]
fn min_stack_size() -> (floor: usize)
    ensures
        FLOOR_MIN <= floor <= FLOOR_MAX,
{
    libc::MINSIGSTKSZ
}

/// The smallest stack that this platform accepts, in bytes. A coroutine is
/// made with a stack of at least this size.
pub fn stack_floor() -> (floor: usize)
    ensures
        is_floor(floor),
{
    min_stack_size()
}

} // verus!
