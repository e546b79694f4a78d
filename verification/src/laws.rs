//! What holds of every coroutine, stated over the model.

use crate::state::ContextState;
use vstd::prelude::*;

verus! {

/// A resting context that has been resumed `n` times against a body that
/// follows `script` is unchanged while the script lasts, and ended from
/// then on. A context that had ended before stays as it was.
pub proof fn law_state_after_script<T>(s: ContextState<T>, script: Seq<T>, n: nat)
    requires
        s.resting(),
    ensures
        s.after(script, n) == if s.finished || n <= script.len() {
            s
        } else {
            s.ended()
        },
    decreases n,
{
    if n > 0 {
        law_state_after_script::<T>(s, script, (n - 1) as nat);
    }
}

/// A body that suspends with the items of `script` in order and then ends
/// makes resumption number `k` return item `k` of the script, and every
/// resumption from number `script.len()` on return nothing.
pub proof fn law_replies_follow_script<T>(s: ContextState<T>, script: Seq<T>, k: nat)
    requires
        s.resting(),
        !s.finished,
    ensures
        k < script.len() ==> s.reply(script, k) == Some(script[k as int]),
        k >= script.len() ==> s.reply(script, k) is None,
{
    law_state_after_script::<T>(s, script, k);
}

/// A fresh context rests and is unfinished, and a context that rests
/// unfinished is as good as fresh: it differs in nothing from a new one
/// with the same stack.
pub proof fn law_rest_is_fresh<T>(s: ContextState<T>, size: usize)
    ensures
        ContextState::<T>::fresh(size).resting(),
        !ContextState::<T>::fresh(size).finished,
        s.resting() && !s.finished ==> s == ContextState::<T>::fresh(s.stack_size),
{
}

/// A finished context returns nothing to every resumption, whatever the
/// body's script says.
pub proof fn law_finished_replies_nothing<T>(s: ContextState<T>, script: Seq<T>, k: nat)
    requires
        s.resting(),
        s.finished,
    ensures
        s.reply(script, k) is None,
        s.after(script, k) == s,
{
    law_state_after_script::<T>(s, script, k);
}

/// A body that suspends with 0, 1, ..., `count - 1` makes the first `count`
/// resumptions return these numbers in order, and the next one nothing.
pub proof fn law_counting_body(size: usize, count: nat, k: nat)
    requires
        k <= count,
    ensures
        ({
            let script = Seq::new(count, |i: int| i);
            let reply = ContextState::<int>::fresh(size).reply(script, k);
            if k < count {
                reply == Some(k as int)
            } else {
                reply is None
            }
        }),
{
    let script = Seq::new(count, |i: int| i);
    law_replies_follow_script::<int>(ContextState::<int>::fresh(size), script, k);
}

/// A resumption returns nothing exactly when the coroutine is finished
/// after it. From then on every resumption returns nothing and changes
/// nothing, whatever the body would have done.
pub proof fn law_empty_reply_is_final<T>(s: ContextState<T>, act: Option<T>, next: Option<T>)
    requires
        s.resting(),
    ensures
        s.resumed(act).1 is None <==> s.resumed(act).0.finished,
        s.resumed(act).1 is None ==> s.resumed(act).0.resumed(next) == (s.resumed(act).0, None::<T>),
{
}

/// A body that ends without suspending makes the very first resumption
/// return nothing.
pub proof fn law_silent_body<T>(size: usize)
    ensures
        ContextState::<T>::fresh(size).reply(Seq::<T>::empty(), 0) is None,
        ContextState::<T>::fresh(size).resumed(None).1 is None,
{
}

/// Between resumptions the context rests: a resumption takes a resting
/// context to a resting one, with the stack it had.
pub proof fn law_resumption_keeps_resting<T>(s: ContextState<T>, act: Option<T>)
    requires
        s.resting(),
    ensures
        s.resumed(act).0.resting(),
        s.resumed(act).0.stack_size == s.stack_size,
{
}

/// The end is for good: no transition takes a finished context back, and
/// no resumption enters one.
pub proof fn law_finished_is_terminal<T>(s: ContextState<T>, act: Option<T>, value: T)
    requires
        s.finished,
    ensures
        s.entered().finished,
        s.suspended(value).finished,
        s.ended().finished,
        s.concluded().finished,
        s.taken().finished,
        s.resumed(act).0 == s,
{
}

/// Every transition keeps the invariant, from the states in which it is
/// allowed.
pub proof fn law_transitions_keep_invariant<T>(s: ContextState<T>, value: T)
    requires
        s.wf(),
    ensures
        s.resting() && !s.finished ==> s.entered().wf() && s.entered().active,
        s.active ==> s.suspended(value).returned(),
        s.active ==> s.ended().returned(),
        s.active || s.finished ==> s.concluded().wf() && s.concluded().finished,
        !s.active ==> s.taken().resting(),
{
}

} // verus!
