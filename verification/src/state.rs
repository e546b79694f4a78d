//! The mathematical model of an execution context and of its transitions.

use vstd::prelude::*;

verus! {

/// The three stations of a coroutine, as the driving side sees them.
#[derive(Clone, Copy, Debug, PartialEq, Eq, Structural)]
pub enum Phase {
    /// Control is with the driving side and the body has not ended.
    Suspended,
    /// Control is on the coroutine's own stack.
    Running,
    /// The body has ended; control never goes back to it.
    Finished,
}

/// What an execution context holds, as plain values.
pub struct ContextState<T> {
    /// The value handed out by the latest suspension and not yet collected.
    pub yielded: Option<T>,
    /// Whether the body has ended.
    pub finished: bool,
    /// Whether control is on the coroutine's own stack.
    pub active: bool,
    /// The size of the coroutine's stack in bytes.
    pub stack_size: usize,
}

impl<T> ContextState<T> {
    /// A context that has never been switched into.
    pub open spec fn fresh(size: usize) -> Self {
        ContextState { yielded: None, finished: false, active: false, stack_size: size }
    }

    /// The invariant: a running body has not ended and has nothing in
    /// flight, and an ended one has nothing in flight either.
    pub open spec fn wf(self) -> bool {
        &&& self.active ==> !self.finished && self.yielded is None
        &&& self.finished ==> self.yielded is None
    }

    /// Control is with the driving side and nothing waits to be collected.
    pub open spec fn resting(self) -> bool {
        self.wf() && !self.active && self.yielded is None
    }

    /// Control has come back from the coroutine: a value is in flight, or
    /// the body has ended.
    pub open spec fn returned(self) -> bool {
        self.wf() && !self.active && (self.yielded is Some || self.finished)
    }

    /// The station that the context is at.
    pub open spec fn phase(self) -> Phase {
        if self.finished {
            Phase::Finished
        } else if self.active {
            Phase::Running
        } else {
            Phase::Suspended
        }
    }

    /// Control passes to the coroutine.
    pub open spec fn entered(self) -> Self {
        ContextState { active: true, ..self }
    }

    /// The body hands `value` out and gives up control.
    pub open spec fn suspended(self, value: T) -> Self {
        ContextState { yielded: Some(value), active: false, ..self }
    }

    /// The body has ended: nothing is in flight and control is given up
    /// for good.
    pub open spec fn ended(self) -> Self {
        ContextState { yielded: None, finished: true, active: false, ..self }
    }

    /// The body's function has come back: the context ends unless it has
    /// ended already.
    pub open spec fn concluded(self) -> Self {
        if self.finished {
            self
        } else {
            self.ended()
        }
    }

    /// The value in flight has been read.
    pub open spec fn taken(self) -> Self {
        ContextState { yielded: None, ..self }
    }

    /// One whole resumption seen from the driving side. `act` is what the
    /// body does once it has control: `Some(v)` when it suspends with `v`,
    /// `None` when it comes to its end. A finished context is left alone.
    pub open spec fn resumed(self, act: Option<T>) -> (Self, Option<T>) {
        if self.finished {
            (self, None)
        } else {
            let back = match act {
                Some(v) => self.entered().suspended(v),
                None => self.entered().concluded(),
            };
            (back.taken(), back.yielded)
        }
    }

    /// What a body does on its `k`-th stretch of control when it suspends
    /// with the items of `script` in order and then ends.
    pub open spec fn act_at(script: Seq<T>, k: int) -> Option<T> {
        if 0 <= k < script.len() {
            Some(script[k])
        } else {
            None
        }
    }

    /// The context after `n` resumptions of a body that follows `script`.
    pub open spec fn after(self, script: Seq<T>, n: nat) -> Self
        decreases n,
    {
        if n == 0 {
            self
        } else {
            self.after(script, (n - 1) as nat).resumed(Self::act_at(script, n - 1)).0
        }
    }

    /// What resumption number `k`, counted from zero, returns for a body
    /// that follows `script`.
    pub open spec fn reply(self, script: Seq<T>, k: nat) -> Option<T> {
        self.after(script, k).resumed(Self::act_at(script, k as int)).1
    }
}

} // verus!
