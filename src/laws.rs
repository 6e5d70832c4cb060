//! Properties that hold across the operations of a computation.

use crate::coro::{
    close_post, err_of, is_exit_signal, send_post, throw_post, CoroView, Frame, FrameCall,
};
use crate::exception::{Exception, ExceptionKind};
use crate::outcome::{
    close_outcome, closes_on, ignored_exit_message, is_self_stop, send_outcome, throw_outcome, CoroKind,
    ExecutionResult, IterReturn,
};
use vstd::prelude::*;

verus! {

/// Whether `e` reports a misuse of the protocol rather than an error of the
/// computation itself.
pub open spec fn is_usage_error(e: Exception) -> bool {
    e.kind == ExceptionKind::TypeError || e.kind == ExceptionKind::ValueError
}

/// Once `close` has run on a computation that was not in the middle of a
/// resumption, the computation is closed for good: a later `send` of any
/// value reports the end with no result, a later `throw` raises its
/// exception straight back, and a later `close` succeeds, all without
/// changing the computation, its frame or the caller's stack.
pub proof fn lemma_close_is_terminal<F: Frame>(
    c0: CoroView<F>,
    c1: CoroView<F>,
    r1: Result<(), Exception>,
    x0: Seq<Option<Exception>>,
    x1: Seq<Option<Exception>>,
    value: Option<F::Value>,
    c2: CoroView<F>,
    r2: Result<IterReturn<F::Value>, Exception>,
    x2: Seq<Option<Exception>>,
    exc: Exception,
    c3: CoroView<F>,
    r3: Result<IterReturn<F::Value>, Exception>,
    x3: Seq<Option<Exception>>,
    c4: CoroView<F>,
    r4: Result<(), Exception>,
    x4: Seq<Option<Exception>>,
)
    requires
        !c0.running,
        close_post(c0, c1, r1, x0, x1),
        send_post(c1, value, c2, r2, x1, x2),
        throw_post(c1, exc, c3, r3, x1, x3),
        close_post(c1, c4, r4, x1, x4),
    ensures
        c1.closed,
        r2 == Ok::<IterReturn<F::Value>, Exception>(IterReturn::StopIteration(None)),
        c2 == c1 && x2 == x1,
        r3 == Err::<IterReturn<F::Value>, Exception>(exc),
        c3 == c1 && x3 == x1,
        r4 is Ok && c4 == c1 && x4 == x1,
{
}

/// Sending a value into an open computation whose frame has not started
/// fails with a usage error and changes nothing, whatever the kind of
/// computation and whether or not it is running.
pub proof fn lemma_fresh_send_rejected<F: Frame>(
    c0: CoroView<F>,
    x0: Seq<Option<Exception>>,
    value: Option<F::Value>,
    c1: CoroView<F>,
    r: Result<IterReturn<F::Value>, Exception>,
    x1: Seq<Option<Exception>>,
)
    requires
        !c0.closed,
        c0.frame.spec_lasti() == 0,
        value is Some,
        send_post(c0, value, c1, r, x0, x1),
    ensures
        r is Err,
        r->Err_0.kind == ExceptionKind::TypeError,
        c1 == c0 && x1 == x0,
{
}

/// A `send`, `throw` or `close` made while the computation is in the middle
/// of a resumption fails with a usage error and changes nothing: not
/// `closed`, not the computation, not the caller's stack.
pub proof fn lemma_reentry_refused<F: Frame>(
    c0: CoroView<F>,
    x0: Seq<Option<Exception>>,
    value: Option<F::Value>,
    c1: CoroView<F>,
    r1: Result<IterReturn<F::Value>, Exception>,
    x1: Seq<Option<Exception>>,
    exc: Exception,
    c2: CoroView<F>,
    r2: Result<IterReturn<F::Value>, Exception>,
    x2: Seq<Option<Exception>>,
    c3: CoroView<F>,
    r3: Result<(), Exception>,
    x3: Seq<Option<Exception>>,
)
    requires
        c0.running,
        !c0.closed,
        send_post(c0, value, c1, r1, x0, x1),
        throw_post(c0, exc, c2, r2, x0, x2),
        close_post(c0, c3, r3, x0, x3),
    ensures
        r1 is Err && is_usage_error(r1->Err_0),
        c1 == c0 && x1 == x0,
        r2 is Err && is_usage_error(r2->Err_0),
        c2 == c0 && x2 == x0,
        r3 is Err && is_usage_error(r3->Err_0),
        c3 == c0 && x3 == x0,
{
    assert(err_of(r1) is Some);
    assert(err_of(r2) is Some);
    assert(err_of(r3) is Some);
}

/// `close` on an open computation that is not in the middle of a resumption
/// makes exactly one call on its frame, raising the exit signal in it, and
/// never resumes it; a second `close` makes no call at all.
pub proof fn lemma_close_raises_exit_once<F: Frame>(
    c0: CoroView<F>,
    c1: CoroView<F>,
    r1: Result<(), Exception>,
    x0: Seq<Option<Exception>>,
    x1: Seq<Option<Exception>>,
    c2: CoroView<F>,
    r2: Result<(), Exception>,
    x2: Seq<Option<Exception>>,
)
    requires
        !c0.closed,
        !c0.running,
        close_post(c0, c1, r1, x0, x1),
        close_post(c1, c2, r2, x1, x2),
    ensures
        c1.handed.len() == c0.handed.len() + 1,
        c1.handed.drop_last() =~= c0.handed,
        c1.handed.last() matches FrameCall::Throw(e) && is_exit_signal(e),
        c2.handed == c1.handed,
{
}

/// `throw` on an open computation that is not in the middle of a
/// resumption raises the exception in the frame exactly as given, in one
/// call and with no resumption, whether or not the frame has started: no
/// error of the computation's own comes first.
pub proof fn lemma_throw_hands_exception<F: Frame>(
    c0: CoroView<F>,
    exc: Exception,
    c1: CoroView<F>,
    r: Result<IterReturn<F::Value>, Exception>,
    x0: Seq<Option<Exception>>,
    x1: Seq<Option<Exception>>,
)
    requires
        !c0.closed,
        !c0.running,
        throw_post(c0, exc, c1, r, x0, x1),
    ensures
        c1.handed == c0.handed.push(FrameCall::Throw(exc)),
{
}

/// A frame that returns `x` closes the computation, and `send` hands the
/// caller the end of the computation with `x` as its result ("nothing"
/// staying "nothing").
pub proof fn lemma_return_terminates<V>(k: CoroKind, x: Option<V>, r: Result<IterReturn<V>, Exception>)
    requires
        send_outcome(k, Ok(ExecutionResult::Return(x)), r),
    ensures
        closes_on::<V>(Ok(ExecutionResult::Return(x))),
        r == Ok::<IterReturn<V>, Exception>(IterReturn::StopIteration(x)),
{
}

/// A frame that raises its own termination signal during `send` closes the
/// computation, and the caller gets a runtime error caused by that signal.
pub proof fn lemma_self_stop_wrapped<V>(k: CoroKind, e: Exception, r: Result<IterReturn<V>, Exception>)
    requires
        is_self_stop(k, e),
        send_outcome::<V>(k, Err(e), r),
    ensures
        closes_on::<V>(Err(e)),
        r is Err,
        r->Err_0.kind == ExceptionKind::RuntimeError,
        r->Err_0.cause == Some(Box::new(e)),
{
}

/// `throw` passes every outcome of the frame through, a termination signal
/// raised from inside included: unlike `send`, it wraps nothing.
pub proof fn lemma_throw_wraps_nothing<V>(e: Exception)
    ensures
        throw_outcome::<V>(Err(e)) == Err::<IterReturn<V>, Exception>(e),
{
}

/// A frame that answers the exit signal with another value makes `close`
/// fail with a runtime error saying the signal was ignored, and `close`
/// leaves the computation closed whatever the frame did.
pub proof fn lemma_ignored_exit<F: Frame>(
    c0: CoroView<F>,
    c1: CoroView<F>,
    r: Result<(), Exception>,
    x0: Seq<Option<Exception>>,
    x1: Seq<Option<Exception>>,
    v: Option<F::Value>,
    r_yield: Result<(), Exception>,
)
    requires
        !c0.running,
        close_post(c0, c1, r, x0, x1),
        close_outcome::<F::Value>(c0.kind, Ok(ExecutionResult::Yield(v)), r_yield),
    ensures
        c1.closed,
        r_yield is Err,
        r_yield->Err_0.kind == ExceptionKind::RuntimeError,
        r_yield->Err_0.message@ == ignored_exit_message(c0.kind),
{
}

} // verus!
