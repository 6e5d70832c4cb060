//! What a frame reports back, what the caller is handed, and the rules that
//! turn the one into the other.

use crate::exception::{cause_box, Exception, ExceptionKind};
use vstd::prelude::*;
use vstd::string::StringExecFns;

verus! {

/// How a frame stopped: at a yield point, handing out a value, or by
/// returning. `None` stands for the canonical "nothing" value.
#[derive(Debug, PartialEq, Eq)]
pub enum ExecutionResult<V> {
    Yield(Option<V>),
    Return(Option<V>),
}

/// What the iteration protocol hands the caller: a produced value, or the
/// end of the computation with its result.
#[derive(Debug, PartialEq, Eq)]
pub enum IterReturn<V> {
    Return(Option<V>),
    StopIteration(Option<V>),
}

/// The three kinds of suspendable computation. They differ only in the
/// name used in messages and in which termination signal they may not raise.
#[derive(Clone, Copy, Debug, PartialEq, Eq, Structural)]
pub enum CoroKind {
    Generator,
    Coroutine,
    AsyncGenerator,
}

/// The display name of a kind of computation.
pub open spec fn kind_name(k: CoroKind) -> Seq<char> {
    match k {
        CoroKind::Generator => "generator"@,
        CoroKind::Coroutine => "coroutine"@,
        CoroKind::AsyncGenerator => "async generator"@,
    }
}

/// The display name of a kind of computation.
pub fn gen_name(k: CoroKind) -> (r: &'static str)
    ensures
        r@ == kind_name(k),
{
    match k {
        CoroKind::Coroutine => "coroutine",
        CoroKind::AsyncGenerator => "async generator",
        CoroKind::Generator => "generator",
    }
}

/// `e` has class `kind`, message `msg` and cause `cause`.
pub open spec fn is_error(e: Exception, kind: ExceptionKind, msg: Seq<char>, cause: Option<Exception>) -> bool {
    e.kind == kind && e.message@ == msg && e.cause == cause_box(cause)
}

/// What the caller is handed for an outcome of the frame.
pub open spec fn iter_return_of<V>(res: ExecutionResult<V>) -> IterReturn<V> {
    match res {
        ExecutionResult::Yield(v) => IterReturn::Return(v),
        ExecutionResult::Return(v) => IterReturn::StopIteration(v),
    }
}

/// Whether an outcome of the frame leaves the computation closed: a return
/// or an error does, a yield does not.
pub open spec fn closes_on<V>(res: Result<ExecutionResult<V>, Exception>) -> bool {
    !(res matches Ok(ExecutionResult::Yield(_)))
}

impl<V> ExecutionResult<V> {
    /// Turns the frame's outcome into what the caller of `send` or `throw`
    /// is handed.
    pub fn into_iter_return(self) -> (r: IterReturn<V>)
        ensures
            r == iter_return_of(self),
    {
        match self {
            ExecutionResult::Yield(value) => IterReturn::Return(value),
            // "Nothing" as the result stays "nothing".
            ExecutionResult::Return(value) => IterReturn::StopIteration(value),
        }
    }
}

/// The message of the error raised when a computation raises its own
/// plain termination signal.
pub open spec fn raised_stop_message(k: CoroKind) -> Seq<char> {
    kind_name(k) + " raised StopIteration"@
}

/// The message of the error raised when an async generator raises its own
/// asynchronous termination signal.
pub open spec fn raised_stop_async_message() -> Seq<char> {
    "async generator raised StopAsyncIteration"@
}

/// The message of the error raised when `close` finds that the computation
/// yielded instead of exiting.
pub open spec fn ignored_exit_message(k: CoroKind) -> Seq<char> {
    kind_name(k) + " ignored GeneratorExit"@
}

/// The message of the error raised on a reentrant resumption.
pub open spec fn already_executing_message(k: CoroKind) -> Seq<char> {
    kind_name(k) + " already executing"@
}

/// The message of the error raised when a value is sent into a computation
/// that has not started.
pub open spec fn just_started_message(k: CoroKind) -> Seq<char> {
    "can't send non-None value to a just-started "@ + kind_name(k)
}

/// Whether `e` is the termination signal that a computation of kind `k`
/// may not raise from inside while it is sent a value.
pub open spec fn is_self_stop(k: CoroKind, e: Exception) -> bool {
    e.kind == ExceptionKind::StopIteration || (k == CoroKind::AsyncGenerator && e.kind
        == ExceptionKind::StopAsyncIteration)
}

/// What `send` hands its caller for an outcome of the frame: the outcome
/// translated, a self-raised termination signal wrapped as the cause of a
/// runtime error, and any other error unchanged.
pub open spec fn send_outcome<V>(k: CoroKind, res: Result<ExecutionResult<V>, Exception>, r: Result<IterReturn<V>, Exception>) -> bool {
    match res {
        Ok(er) => r == Ok::<IterReturn<V>, Exception>(iter_return_of(er)),
        Err(e) => if e.kind == ExceptionKind::StopIteration {
            r is Err && is_error(r->Err_0, ExceptionKind::RuntimeError, raised_stop_message(k), Some(e))
        } else if k == CoroKind::AsyncGenerator && e.kind == ExceptionKind::StopAsyncIteration {
            r is Err && is_error(r->Err_0, ExceptionKind::RuntimeError, raised_stop_async_message(), Some(e))
        } else {
            r == Err::<IterReturn<V>, Exception>(e)
        },
    }
}

/// What `throw` hands its caller for an outcome of the frame: the outcome
/// translated, and any error unchanged.
pub open spec fn throw_outcome<V>(res: Result<ExecutionResult<V>, Exception>) -> Result<IterReturn<V>, Exception> {
    match res {
        Ok(er) => Ok(iter_return_of(er)),
        Err(e) => Err(e),
    }
}

/// What `close` reports for the frame's answer to the exit signal: a yield
/// is a runtime error, the exit signal itself or a return is success, and
/// any other error is passed on.
pub open spec fn close_outcome<V>(k: CoroKind, res: Result<ExecutionResult<V>, Exception>, r: Result<(), Exception>) -> bool {
    match res {
        Ok(ExecutionResult::Yield(_)) => r is Err && is_error(r->Err_0, ExceptionKind::RuntimeError, ignored_exit_message(k), None),
        Ok(ExecutionResult::Return(_)) => r is Ok,
        Err(e) => if e.kind == ExceptionKind::GeneratorExit {
            r is Ok
        } else {
            r == Err::<(), Exception>(e)
        },
    }
}

/// A runtime error with message `prefix` followed by `suffix`, caused by
/// `cause`.
fn runtime_error(prefix: &str, suffix: &str, cause: Option<Exception>) -> (r: Exception)
    ensures
        is_error(r, ExceptionKind::RuntimeError, prefix@ + suffix@, cause),
{
    let mut err = Exception {
        kind: ExceptionKind::RuntimeError,
        message: String::from_str(prefix).concat(suffix),
        cause: None,
    };
    err.set_cause(cause);
    err
}

/// The error raised on a reentrant resumption of a computation of kind `k`.
pub fn already_executing_error(k: CoroKind) -> (r: Exception)
    ensures
        is_error(r, ExceptionKind::ValueError, already_executing_message(k), None),
{
    Exception {
        kind: ExceptionKind::ValueError,
        message: String::from_str(gen_name(k)).concat(" already executing"),
        cause: None,
    }
}

/// The error raised when a value is sent into a computation of kind `k`
/// that has not started.
pub fn just_started_error(k: CoroKind) -> (r: Exception)
    ensures
        is_error(r, ExceptionKind::TypeError, just_started_message(k), None),
{
    Exception {
        kind: ExceptionKind::TypeError,
        message: String::from_str("can't send non-None value to a just-started ").concat(
            gen_name(k),
        ),
        cause: None,
    }
}

/// Translates the frame's outcome of a `send` for a computation of kind `k`.
pub fn translate_send<V>(k: CoroKind, res: Result<ExecutionResult<V>, Exception>) -> (r: Result<IterReturn<V>, Exception>)
    ensures
        send_outcome(k, res, r),
{
    match res {
        Ok(exec_res) => Ok(exec_res.into_iter_return()),
        Err(e) => {
            if e.kind == ExceptionKind::StopIteration {
                Err(runtime_error(gen_name(k), " raised StopIteration", Some(e)))
            } else if k == CoroKind::AsyncGenerator && e.kind == ExceptionKind::StopAsyncIteration {
                proof {
                    reveal_strlit("");
                    assert(raised_stop_async_message() + ""@ =~= raised_stop_async_message());
                }
                Err(runtime_error("async generator raised StopAsyncIteration", "", Some(e)))
            } else {
                Err(e)
            }
        },
    }
}

/// Translates the frame's outcome of a `throw`.
pub fn translate_throw<V>(res: Result<ExecutionResult<V>, Exception>) -> (r: Result<IterReturn<V>, Exception>)
    ensures
        r == throw_outcome(res),
{
    match res {
        Ok(exec_res) => Ok(exec_res.into_iter_return()),
        Err(e) => Err(e),
    }
}

/// Translates the frame's answer to the exit signal that `close` injected
/// into a computation of kind `k`.
pub fn translate_close<V>(k: CoroKind, res: Result<ExecutionResult<V>, Exception>) -> (r: Result<(), Exception>)
    ensures
        close_outcome(k, res, r),
{
    match res {
        Ok(ExecutionResult::Yield(_)) => Err(runtime_error(gen_name(k), " ignored GeneratorExit", None)),
        Err(e) => {
            if e.kind != ExceptionKind::GeneratorExit {
                Err(e)
            } else {
                Ok(())
            }
        },
        Ok(ExecutionResult::Return(_)) => Ok(()),
    }
}

} // verus!
