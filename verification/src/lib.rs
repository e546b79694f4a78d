//! The bookkeeping core of a stackful coroutine: which side holds control,
//! what value is in flight, and whether the body has ended.
//!
//! A coroutine runs on a stack of its own and hands values to whoever
//! resumes it. The transfer of control itself is machine work that lives
//! outside this crate; every decision around it is made here. The driving
//! side calls [`KloRoutine::resume`], passes control over when told to, and
//! calls [`KloRoutine::collect`] once control is back. The body's side calls
//! [`flush`] to hand a value out, and [`KloContext::conclude`] marks its end.

pub mod context;
pub mod laws;
pub mod platform;
pub mod routine;
pub mod state;

pub use context::KloContext;
pub use platform::stack_floor;
pub use platform::FLOOR_MAX;
pub use platform::FLOOR_MIN;
pub use routine::KloRoutine;
pub use routine::DEFAULT_STACK_SIZE;
pub use state::ContextState;
pub use state::Phase;

use vstd::prelude::*;

verus! {

/// Hands `value` to the driving side from inside a running body: the
/// context keeps it as the value in flight and gives up control.
pub fn yield_<T>(ctx: &mut KloContext<T>, value: T)
    requires
        old(ctx)@.wf(),
        old(ctx)@.active,
    ensures
        final(ctx)@ == old(ctx)@.suspended(value),
        final(ctx)@.wf(),
{
    ctx.yield_(value)
}

/// Another name for [`yield_`].
pub fn flush<T>(ctx: &mut KloContext<T>, value: T)
    requires
        old(ctx)@.wf(),
        old(ctx)@.active,
    ensures
        final(ctx)@ == old(ctx)@.suspended(value),
        final(ctx)@.wf(),
{
    yield_(ctx, value)
}

} // verus!
