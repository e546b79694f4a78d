//! The handle through which a coroutine is driven.

use crate::context::KloContext;
use crate::laws::law_finished_replies_nothing;
use crate::laws::law_replies_follow_script;
use crate::platform::is_floor;
use crate::platform::stack_floor;
use crate::state::ContextState;
use vstd::prelude::*;

verus! {

/// The stack size that [`KloRoutine::new`] asks for: 16 MiB.
pub const DEFAULT_STACK_SIZE: usize = 16 * 1024 * 1024;

/// A coroutine: its body and its execution context.
pub struct KloRoutine<F, T> {
    ctx: KloContext<T>,
    func: F,
}

impl<F, T> View for KloRoutine<F, T> {
    type V = ContextState<T>;

    closed spec fn view(&self) -> ContextState<T> {
        self.ctx@
    }
}

impl<F, T> KloRoutine<F, T> {
    /// The body that this handle drives.
    pub closed spec fn body_spec(&self) -> F {
        self.func
    }

    /// A handle on `func` with a stack of `size` bytes, on a platform whose
    /// smallest stack is `floor` bytes, as [`stack_floor`] reads it. A
    /// smaller stack is no stack for a coroutine: the caller rules it out.
    pub fn with_stack_size(func: F, size: usize, floor: usize) -> (r: Self)
        requires
            is_floor(floor),
            size >= floor,
        ensures
            r@ == ContextState::<T>::fresh(size),
            r.body_spec() == func,
    {
        KloRoutine { ctx: KloContext::new(size, floor), func }
    }

    /// A handle on `func` with a stack of [`DEFAULT_STACK_SIZE`] bytes,
    /// which is large enough on every platform.
    pub fn new(func: F) -> (r: Self)
        ensures
            r@ == ContextState::<T>::fresh(DEFAULT_STACK_SIZE),
            r.body_spec() == func,
    {
        let floor = stack_floor();
        Self::with_stack_size(func, DEFAULT_STACK_SIZE, floor)
    }

    /// Opens a resumption and says whether control must now pass to the
    /// coroutine. On a finished coroutine the answer is `false` and
    /// nothing changes; otherwise the context is marked as running.
    pub fn resume(&mut self) -> (switch: bool)
        requires
            old(self)@.resting(),
        ensures
            switch == !old(self)@.finished,
            switch ==> final(self)@ == old(self)@.entered(),
            !switch ==> *final(self) == *old(self),
            final(self)@.wf(),
            final(self).body_spec() == old(self).body_spec(),
    {
        if self.ctx.is_finished() {
            return false;
        }
        self.ctx.enter();
        true
    }

    /// Closes a resumption once control is back: returns the value that the
    /// body suspended with, or `None` when the body has ended.
    pub fn collect(&mut self) -> (value: Option<T>)
        requires
            old(self)@.returned(),
        ensures
            value == old(self)@.yielded,
            value is None <==> final(self)@.finished,
            final(self)@ == old(self)@.taken(),
            final(self)@.resting(),
            final(self).body_spec() == old(self).body_spec(),
    {
        self.ctx.take()
    }

    /// Plays one whole resumption against a body whose next act is known:
    /// `Some(v)` when it suspends with `v`, `None` when it comes to its
    /// end. Returns what the resumption returns.
    pub fn resume_with(&mut self, act: Option<T>) -> (value: Option<T>)
        requires
            old(self)@.resting(),
        ensures
            (final(self)@, value) == old(self)@.resumed(act),
            final(self)@.resting(),
            final(self).body_spec() == old(self).body_spec(),
    {
        if !self.resume() {
            return None;
        }
        match act {
            Some(v) => self.ctx.yield_(v),
            None => self.ctx.conclude(),
        }
        self.collect()
    }

    /// Drives the handle as a sequence to its end, against a body that
    /// suspends with the items of `script` in order and then ends. Returns
    /// the items that came out, in order: one for each resumption that
    /// returned a value, up to the first that returned nothing.
    pub fn drain_with(&mut self, script: Vec<T>) -> (items: Vec<T>)
        requires
            old(self)@.resting(),
        ensures
            items@ == if old(self)@.finished {
                Seq::<T>::empty()
            } else {
                script@
            },
            forall|k: nat|
                k < items@.len() ==> old(self)@.reply(script@, k) == Some(items@[k as int]),
            old(self)@.reply(script@, items@.len()) is None,
            final(self)@ == old(self)@.concluded(),
            final(self)@.resting(),
            final(self).body_spec() == old(self).body_spec(),
    {
        let ghost start = self@;
        let ghost body = self.body_spec();
        let ghost all = script@;
        let mut items: Vec<T> = Vec::new();
        if self.is_finished() {
            proof {
                law_finished_replies_nothing::<T>(start, all, 0);
            }
            return items;
        }
        for v in it: script
            invariant
                self@ == start,
                self.body_spec() == body,
                start.resting(),
                !start.finished,
                it.seq() == all,
                items@ == all.take(it.index() as int),
        {
            let reply = self.resume_with(Some(v));
            if let Some(item) = reply {
                items.push(item);
            }
        }
        self.resume_with(None);
        proof {
            assert(items@ == all);
            assert forall|k: nat| k < items@.len() implies start.reply(all, k) == Some(
                items@[k as int],
            ) by {
                law_replies_follow_script::<T>(start, all, k);
            }
            law_replies_follow_script::<T>(start, all, all.len());
        }
        items
    }

    /// The execution context, for the body's side.
    pub fn context_mut(&mut self) -> (ctx: &mut KloContext<T>)
        ensures
            ctx@ == old(self)@,
            final(self)@ == final(ctx)@,
            final(self).body_spec() == old(self).body_spec(),
    {
        &mut self.ctx
    }

    /// The execution context and the body together, for the code that runs
    /// the body on the context.
    pub fn parts_mut(&mut self) -> (parts: (&mut KloContext<T>, &mut F))
        ensures
            parts.0@ == old(self)@,
            *parts.1 == old(self).body_spec(),
            final(self)@ == final(parts.0)@,
            final(self).body_spec() == *final(parts.1),
    {
        (&mut self.ctx, &mut self.func)
    }

    /// The execution context, to look at.
    pub fn context(&self) -> (ctx: &KloContext<T>)
        ensures
            ctx@ == self@,
    {
        &self.ctx
    }

    /// The body that this handle drives.
    pub fn body(&self) -> (func: &F)
        ensures
            *func == self.body_spec(),
    {
        &self.func
    }

    /// Whether the body has ended.
    pub fn is_finished(&self) -> (res: bool)
        ensures
            res == self@.finished,
    {
        self.ctx.is_finished()
    }
}

} // verus!
