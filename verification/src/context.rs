//! The execution context: the record that both sides of a coroutine share.

use crate::platform::is_floor;
use crate::state::ContextState;
use crate::state::Phase;
use vstd::prelude::*;

verus! {

/// The state of one coroutine: the value in flight, whether the body has
/// ended, and which side holds control.
pub struct KloContext<T> {
    yielded: Option<T>,
    finished: bool,
    active: bool,
    stack_size: usize,
}

impl<T> View for KloContext<T> {
    type V = ContextState<T>;

    closed spec fn view(&self) -> ContextState<T> {
        ContextState {
            yielded: self.yielded,
            finished: self.finished,
            active: self.active,
            stack_size: self.stack_size,
        }
    }
}

impl<T> KloContext<T> {
    /// A fresh context for a stack of `size` bytes, on a platform whose
    /// smallest stack is `floor` bytes, as [`stack_floor`] reads it. A
    /// smaller stack is no stack for a coroutine: the caller rules it out.
    ///
    /// [`stack_floor`]: crate::platform::stack_floor
    pub fn new(size: usize, floor: usize) -> (c: Self)
        requires
            is_floor(floor),
            size >= floor,
        ensures
            c@ == ContextState::<T>::fresh(size),
    {
        KloContext { yielded: None, finished: false, active: false, stack_size: size }
    }

    /// Keeps `value` as the value in flight and gives up control. Only the
    /// running body may call this.
    pub fn yield_(&mut self, value: T)
        requires
            old(self)@.wf(),
            old(self)@.active,
        ensures
            final(self)@ == old(self)@.suspended(value),
            final(self)@.wf(),
    {
        self.yielded = Some(value);
        self.active = false;
    }

    /// Ends the coroutine: nothing stays in flight and control is given up
    /// for good. Only the running body may call this.
    pub fn finish(&mut self)
        requires
            old(self)@.wf(),
            old(self)@.active,
        ensures
            final(self)@ == old(self)@.ended(),
            final(self)@.wf(),
    {
        self.yielded = None;
        self.finished = true;
        self.active = false;
    }

    /// Called when the body's function has come back: ends the coroutine
    /// unless the body ended it itself.
    pub fn conclude(&mut self)
        requires
            old(self)@.wf(),
            old(self)@.active || old(self)@.finished,
        ensures
            final(self)@ == old(self)@.concluded(),
            final(self)@.wf(),
            final(self)@.finished,
    {
        if !self.finished {
            self.finish();
        }
    }

    /// Gives control to the coroutine.
    pub(crate) fn enter(&mut self)
        requires
            old(self)@.resting(),
            !old(self)@.finished,
        ensures
            final(self)@ == old(self)@.entered(),
            final(self)@.wf(),
    {
        self.active = true;
    }

    /// Reads the value in flight and leaves none behind.
    pub(crate) fn take(&mut self) -> (value: Option<T>)
        requires
            old(self)@.wf(),
            !old(self)@.active,
        ensures
            value == old(self)@.yielded,
            final(self)@ == old(self)@.taken(),
            final(self)@.resting(),
    {
        self.yielded.take()
    }

    /// Whether the coroutine's stack may be given back now. It may not while
    /// the body runs on it. A suspended body that has not ended may be let
    /// go: it is abandoned where it stands and never continues.
    pub fn may_release(&self) -> (res: bool)
        ensures
            res == !self@.active,
    {
        !self.active
    }

    /// Whether the invariant holds of this context. It does of every
    /// context that this library has made and changed.
    pub fn is_sound(&self) -> (res: bool)
        ensures
            res == self@.wf(),
    {
        if self.active {
            !self.finished && self.yielded.is_none()
        } else if self.finished {
            self.yielded.is_none()
        } else {
            true
        }
    }

    /// Whether the body has ended.
    pub fn is_finished(&self) -> (res: bool)
        ensures
            res == self@.finished,
    {
        self.finished
    }

    /// Whether control is on the coroutine's own stack.
    pub fn is_active(&self) -> (res: bool)
        ensures
            res == self@.active,
    {
        self.active
    }

    /// Whether a value waits to be collected.
    pub fn has_value(&self) -> (res: bool)
        ensures
            res == (self@.yielded is Some),
    {
        self.yielded.is_some()
    }

    /// The size of the coroutine's stack in bytes.
    pub fn stack_size(&self) -> (res: usize)
        ensures
            res == self@.stack_size,
    {
        self.stack_size
    }

    /// The station that the coroutine is at.
    pub fn phase(&self) -> (res: Phase)
        ensures
            res == self@.phase(),
    {
        if self.finished {
            Phase::Finished
        } else if self.active {
            Phase::Running
        } else {
            Phase::Suspended
        }
    }
}

} // verus!
