//! The suspendable computation: a frame, a terminal `closed` flag, a
//! reentrancy guard, a saved exception and a display name.

use crate::atomic_flag::{flag_compare_exchange, flag_load, flag_new, flag_of, flag_store};
use crate::exception::{popped, top_of, Exception, ExceptionContext, ExceptionKind};
use crate::hex::{hex_digits, hex_string};
use crate::outcome::{
    already_executing_error, already_executing_message, gen_name, close_outcome, closes_on, is_error,
    just_started_error, just_started_message, kind_name, send_outcome, throw_outcome,
    translate_close, translate_send, translate_throw, CoroKind, ExecutionResult, IterReturn,
};
use crossbeam_utils::atomic::AtomicCell;
use vstd::prelude::*;
use vstd::string::StringExecFns;

verus! {

/// A resumable unit of execution, run by the engine that executes the
/// computation's instructions. Each call hands back where execution stopped
/// or the error that propagated out of it; the frame may read and replace
/// the current exception of `ctx` while it runs.
pub trait Frame {
    type Value;

    /// The index of the next instruction, as a function of the frame's
    /// state: zero until execution has started.
    spec fn spec_lasti(&self) -> u32;

    /// The index of the next instruction.
    fn lasti(&self) -> (r: u32)
        ensures
            r == self.spec_lasti(),
    ;

    /// Runs until the next suspension point, with `value` as the result of
    /// the suspension point it stopped at.
    fn resume(&mut self, value: Option<Self::Value>, ctx: &mut ExceptionContext) -> Result<ExecutionResult<Self::Value>, Exception>;

    /// Raises `exc` at the suspension point it stopped at, and runs on.
    fn gen_throw(&mut self, exc: Exception, ctx: &mut ExceptionContext) -> Result<ExecutionResult<Self::Value>, Exception>;
}

/// A call that a computation made on its frame.
pub enum FrameCall<V> {
    /// `resume`, with the value handed to the frame.
    Resume(Option<V>),
    /// `gen_throw`, with the exception raised in the frame.
    Throw(Exception),
}

/// A generator, coroutine or async generator over a frame of type `F`.
pub struct Coro<F: Frame> {
    frame: F,
    closed: AtomicCell<bool>,
    running: AtomicCell<bool>,
    name: String,
    exception: Option<Exception>,
    kind: CoroKind,
    handed: Ghost<Seq<FrameCall<F::Value>>>,
}

/// What a computation holds, as plain values.
pub struct CoroView<F: Frame> {
    pub frame: F,
    pub closed: bool,
    pub running: bool,
    pub name: Seq<char>,
    pub exception: Option<Exception>,
    pub kind: CoroKind,
    /// Every call that the computation has made on its frame, oldest first.
    pub handed: Seq<FrameCall<F::Value>>,
}

impl<F: Frame> View for Coro<F> {
    type V = CoroView<F>;

    closed spec fn view(&self) -> CoroView<F> {
        CoroView {
            frame: self.frame,
            closed: flag_of(self.closed),
            running: flag_of(self.running),
            name: self.name@,
            exception: self.exception,
            kind: self.kind,
            handed: self.handed@,
        }
    }
}

/// The value handed to the frame of a computation of kind `k` whose next
/// instruction is `lasti`, when `value` is sent: any value once it has
/// started, and before that only "no value".
pub open spec fn send_value_ok<V>(k: CoroKind, lasti: u32, value: Option<V>, r: Result<Option<V>, Exception>) -> bool {
    if lasti > 0 {
        r == Ok::<Option<V>, Exception>(value)
    } else if value is Some {
        r is Err && is_error(r->Err_0, ExceptionKind::TypeError, just_started_message(k), None)
    } else {
        r == Ok::<Option<V>, Exception>(None)
    }
}

/// A call refused before the frame was touched: nothing changed, and the
/// error has class `kind` and message `msg`.
pub open spec fn refused<F: Frame>(c0: CoroView<F>, c1: CoroView<F>, x0: Seq<Option<Exception>>, x1: Seq<Option<Exception>>, r_err: Option<Exception>, kind: ExceptionKind, msg: Seq<char>) -> bool {
    &&& c1 == c0
    &&& x1 == x0
    &&& r_err is Some
    &&& is_error(r_err->Some_0, kind, msg, None)
}

/// Whether `send` of `value` is refused because the frame of `c` has not
/// started and a value other than "no value" was sent.
pub open spec fn sends_into_fresh<F: Frame>(c: CoroView<F>, value: Option<F::Value>) -> bool {
    c.frame.spec_lasti() == 0 && value is Some
}

/// After a delegated call `call` that left the caller's stack as `mid`: the
/// call is the one made on the frame, the guard is released, the frame's
/// current exception is saved in the computation and taken off the caller's
/// stack, and the name and kind are kept.
pub open spec fn resumed<F: Frame>(c0: CoroView<F>, c1: CoroView<F>, x1: Seq<Option<Exception>>, mid: Seq<Option<Exception>>, call: FrameCall<F::Value>) -> bool {
    &&& c1.handed == c0.handed.push(call)
    &&& !c1.running
    &&& c1.exception == top_of(mid)
    &&& x1 == popped(mid)
    &&& c1.name == c0.name
    &&& c1.kind == c0.kind
}

/// The error of a `Result`, if any.
pub open spec fn err_of<T>(r: Result<T, Exception>) -> Option<Exception> {
    match r {
        Ok(_) => None,
        Err(e) => Some(e),
    }
}

/// What `send` does: on a closed computation it reports the end and changes
/// nothing; a value sent into a frame that has not started is refused, and
/// so is a call while the computation runs; otherwise it delegates to the
/// frame, handing it `value`, with the caller's stack `x0` extended by the
/// saved exception, and
/// the frame's outcome decides whether the computation closes and what the
/// caller is handed.
pub open spec fn send_post<F: Frame>(c0: CoroView<F>, value: Option<F::Value>, c1: CoroView<F>, r: Result<IterReturn<F::Value>, Exception>, x0: Seq<Option<Exception>>, x1: Seq<Option<Exception>>) -> bool {
    if c0.closed {
        r == Ok::<IterReturn<F::Value>, Exception>(IterReturn::StopIteration(None)) && c1 == c0 && x1 == x0
    } else if sends_into_fresh(c0, value) {
        refused(c0, c1, x0, x1, err_of(r), ExceptionKind::TypeError, just_started_message(c0.kind))
    } else if c0.running {
        refused(c0, c1, x0, x1, err_of(r), ExceptionKind::ValueError, already_executing_message(c0.kind))
    } else {
        exists|res: Result<ExecutionResult<F::Value>, Exception>, mid: Seq<Option<Exception>>|
            #![trigger resumed(c0, c1, x1, mid, FrameCall::Resume(value)), send_outcome(c0.kind, res, r)]
            resumed(c0, c1, x1, mid, FrameCall::Resume(value)) && c1.closed == closes_on(res) && send_outcome(c0.kind, res, r)
    }
}

/// What `throw` does: on a closed computation it raises `exc` and changes
/// nothing; while the computation runs it is refused; otherwise `exc` is
/// raised inside the frame as it is, the frame is not resumed, and its
/// outcome decides.
pub open spec fn throw_post<F: Frame>(c0: CoroView<F>, exc: Exception, c1: CoroView<F>, r: Result<IterReturn<F::Value>, Exception>, x0: Seq<Option<Exception>>, x1: Seq<Option<Exception>>) -> bool {
    if c0.closed {
        r == Err::<IterReturn<F::Value>, Exception>(exc) && c1 == c0 && x1 == x0
    } else if c0.running {
        refused(c0, c1, x0, x1, err_of(r), ExceptionKind::ValueError, already_executing_message(c0.kind))
    } else {
        exists|res: Result<ExecutionResult<F::Value>, Exception>, mid: Seq<Option<Exception>>|
            #![trigger resumed(c0, c1, x1, mid, FrameCall::Throw(exc)), throw_outcome(res)]
            resumed(c0, c1, x1, mid, FrameCall::Throw(exc)) && c1.closed == closes_on(res) && r == throw_outcome(res)
    }
}

/// The exit signal that `close` raises in the frame.
pub open spec fn is_exit_signal(e: Exception) -> bool {
    is_error(e, ExceptionKind::GeneratorExit, ""@, None)
}

/// What `close` does: nothing on a closed computation; while it runs it is
/// refused; otherwise the exit signal is raised inside the frame once, with
/// no resumption, the
/// computation is closed whatever came of it, and the frame's answer
/// decides the result.
pub open spec fn close_post<F: Frame>(c0: CoroView<F>, c1: CoroView<F>, r: Result<(), Exception>, x0: Seq<Option<Exception>>, x1: Seq<Option<Exception>>) -> bool {
    if c0.closed {
        r is Ok && c1 == c0 && x1 == x0
    } else if c0.running {
        refused(c0, c1, x0, x1, err_of(r), ExceptionKind::ValueError, already_executing_message(c0.kind))
    } else {
        c1.closed && exists|res: Result<ExecutionResult<F::Value>, Exception>, mid: Seq<Option<Exception>>, exit: Exception|
            #![trigger resumed(c0, c1, x1, mid, FrameCall::Throw(exit)), close_outcome(c0.kind, res, r)]
            resumed(c0, c1, x1, mid, FrameCall::Throw(exit)) && is_exit_signal(exit) && close_outcome(c0.kind, res, r)
    }
}

impl<F: Frame> Coro<F> {
    /// A computation of kind `kind` over a frame that has not started.
    pub fn new(frame: F, name: String, kind: CoroKind) -> (r: Coro<F>)
        ensures
            r@ == (CoroView { frame, closed: false, running: false, name: name@, exception: None, kind, handed: Seq::empty() }),
    {
        Coro {
            frame,
            closed: flag_new(false),
            running: flag_new(false),
            name,
            exception: None,
            kind,
            handed: Ghost(Seq::empty()),
        }
    }

    /// Takes the reentrancy guard and makes the saved exception the caller's
    /// current one. Refused while the computation runs.
    pub fn enter(&mut self, ctx: &mut ExceptionContext) -> (r: Result<(), Exception>)
        ensures
            old(self)@.running ==> r is Err && is_error(r->Err_0, ExceptionKind::ValueError, already_executing_message(old(self)@.kind), None),
            old(self)@.running ==> final(self)@ == old(self)@ && final(ctx)@ == old(ctx)@,
            !old(self)@.running ==> r is Ok && final(ctx)@ == old(ctx)@.push(old(self)@.exception),
            !old(self)@.running ==> final(self)@ == (CoroView { running: true, exception: None, ..old(self)@ }),
    {
        if flag_compare_exchange(&mut self.running, false, true).is_err() {
            return Err(already_executing_error(self.kind));
        }
        let exc = self.exception.take();
        ctx.push_exception(exc);
        Ok(())
    }

    /// Saves the caller's current exception as this computation's own,
    /// taking it off the caller's stack, and releases the reentrancy guard.
    pub fn leave(&mut self, ctx: &mut ExceptionContext)
        ensures
            final(self)@ == (CoroView { running: false, exception: top_of(old(ctx)@), ..old(self)@ }),
            final(ctx)@ == popped(old(ctx)@),
    {
        self.exception = ctx.pop_exception();
        flag_store(&mut self.running, false);
    }

    /// Closes the computation where the frame returned or failed.
    fn maybe_close<V>(&mut self, res: &Result<ExecutionResult<V>, Exception>)
        ensures
            final(self)@ == (CoroView { closed: old(self)@.closed || closes_on(*res), ..old(self)@ }),
    {
        match res {
            Ok(ExecutionResult::Return(_)) | Err(_) => flag_store(&mut self.closed, true),
            Ok(ExecutionResult::Yield(_)) => {},
        }
    }

    /// Whether a resumption is under way.
    pub fn running(&self) -> (r: bool)
        ensures
            r == self@.running,
    {
        flag_load(&self.running)
    }

    /// Whether the computation has ended.
    pub fn closed(&self) -> (r: bool)
        ensures
            r == self@.closed,
    {
        flag_load(&self.closed)
    }

    /// The frame, shared for reading.
    pub fn frame(&self) -> (r: &F)
        ensures
            *r == self@.frame,
    {
        &self.frame
    }

    /// The display name.
    pub fn name(&self) -> (r: String)
        ensures
            r@ == self@.name,
    {
        self.name.clone()
    }

    /// Replaces the display name.
    pub fn set_name(&mut self, name: String)
        ensures
            final(self)@ == (CoroView { name: name@, ..old(self)@ }),
    {
        self.name = name;
    }

    /// The kind of computation.
    pub fn kind(&self) -> (r: CoroKind)
        ensures
            r == self@.kind,
    {
        self.kind
    }

    /// `<kind object name at 0x..>`, with `id` as the identity token.
    pub fn repr(&self, id: usize) -> (r: String)
        ensures
            r@ == "<"@ + kind_name(self@.kind) + " object "@ + self@.name + " at 0x"@ + hex_digits(id as nat) + ">"@,
    {
        let mut s = String::from_str("<");
        s.append(gen_name(self.kind));
        s.append(" object ");
        s.append(self.name.as_str());
        s.append(" at 0x");
        let digits = hex_string(id);
        s.append(digits.as_str());
        s.append(">");
        s
    }
}

impl<F: Frame> Coro<F> {
    /// Resumes the computation with `value`, or with "no value" where it is
    /// `None`.
    pub fn send(&mut self, value: Option<F::Value>, ctx: &mut ExceptionContext) -> (r: Result<IterReturn<F::Value>, Exception>)
        ensures
            send_post(old(self)@, value, final(self)@, r, old(ctx)@, final(ctx)@),
    {
        if flag_load(&self.closed) {
            return Ok(IterReturn::StopIteration(None));
        }
        let value = match check_send_value(self.kind, self.frame.lasti(), value) {
            Ok(v) => v,
            Err(e) => return Err(e),
        };
        match self.enter(ctx) {
            Ok(()) => {},
            Err(e) => return Err(e),
        }
        let ghost c0 = old(self)@;
        self.handed = Ghost(self.handed@.push(FrameCall::Resume(value)));
        let result = self.frame.resume(value, ctx);
        let ghost mid = ctx@;
        self.leave(ctx);
        self.maybe_close(&result);
        let ghost res = result;
        let r = translate_send(self.kind, result);
        proof {
            assert(resumed(c0, self@, ctx@, mid, FrameCall::Resume(value)));
            assert(send_outcome(c0.kind, res, r));
        }
        r
    }

    /// Raises `exc` inside the computation where it is suspended; on a
    /// closed computation, raises it to the caller.
    pub fn throw(&mut self, exc: Exception, ctx: &mut ExceptionContext) -> (r: Result<IterReturn<F::Value>, Exception>)
        ensures
            throw_post(old(self)@, exc, final(self)@, r, old(ctx)@, final(ctx)@),
    {
        if flag_load(&self.closed) {
            return Err(exc);
        }
        match self.enter(ctx) {
            Ok(()) => {},
            Err(e) => return Err(e),
        }
        let ghost c0 = old(self)@;
        self.handed = Ghost(self.handed@.push(FrameCall::Throw(exc)));
        let result = self.frame.gen_throw(exc, ctx);
        let ghost mid = ctx@;
        self.leave(ctx);
        self.maybe_close(&result);
        let ghost res = result;
        let r = translate_throw(result);
        proof {
            assert(resumed(c0, self@, ctx@, mid, FrameCall::Throw(exc)));
            assert(r == throw_outcome(res));
        }
        r
    }

    /// Asks the computation to finish by raising the exit signal inside it,
    /// and closes it.
    pub fn close(&mut self, ctx: &mut ExceptionContext) -> (r: Result<(), Exception>)
        ensures
            close_post(old(self)@, final(self)@, r, old(ctx)@, final(ctx)@),
            !old(self)@.running ==> final(self)@.closed,
    {
        if flag_load(&self.closed) {
            return Ok(());
        }
        match self.enter(ctx) {
            Ok(()) => {},
            Err(e) => return Err(e),
        }
        let ghost c0 = old(self)@;
        let exit = Exception::new(ExceptionKind::GeneratorExit, "");
        self.handed = Ghost(self.handed@.push(FrameCall::Throw(exit)));
        let ghost exit_g = exit;
        let result = self.frame.gen_throw(exit, ctx);
        let ghost mid = ctx@;
        self.leave(ctx);
        flag_store(&mut self.closed, true);
        let ghost res = result;
        let r = translate_close(self.kind, result);
        proof {
            assert(resumed(c0, self@, ctx@, mid, FrameCall::Throw(exit_g)));
            assert(is_exit_signal(exit_g));
            assert(close_outcome(c0.kind, res, r));
        }
        r
    }
}

/// Decides what `send` hands to a frame whose next instruction is `lasti`.
pub fn check_send_value<V>(k: CoroKind, lasti: u32, value: Option<V>) -> (r: Result<Option<V>, Exception>)
    ensures
        send_value_ok(k, lasti, value, r),
{
    if lasti > 0 {
        Ok(value)
    } else if value.is_some() {
        Err(just_started_error(k))
    } else {
        Ok(None)
    }
}

} // verus!
