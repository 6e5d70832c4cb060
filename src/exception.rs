//! Exceptions as the protocol layer sees them, and the caller's stack of
//! exceptions currently being handled.

use vstd::prelude::*;

verus! {

/// The exception classes that the protocol layer tells apart.
#[derive(Clone, Copy, Debug, PartialEq, Eq, Structural)]
pub enum ExceptionKind {
    /// The signal that ends a plain iteration.
    StopIteration,
    /// The signal that ends an asynchronous iteration.
    StopAsyncIteration,
    /// The signal that `close` injects to ask for a cooperative shutdown.
    GeneratorExit,
    RuntimeError,
    ValueError,
    TypeError,
    /// Any class that the protocol layer has no rule for.
    Other,
}

/// An exception object: its class, its message and the exception that
/// caused it, if any.
#[derive(Debug, PartialEq, Eq)]
pub struct Exception {
    pub kind: ExceptionKind,
    pub message: String,
    pub cause: Option<Box<Exception>>,
}

impl Exception {
    /// A new exception of class `kind` with no cause.
    pub fn new(kind: ExceptionKind, message: &str) -> (r: Exception)
        ensures
            r.kind == kind,
            r.message@ == message@,
            r.cause is None,
    {
        Exception { kind, message: String::from_str(message), cause: None }
    }

    /// Records `cause` as the exception that caused this one.
    pub fn set_cause(&mut self, cause: Option<Exception>)
        ensures
            final(self).kind == old(self).kind,
            final(self).message == old(self).message,
            final(self).cause == cause_box(cause),
    {
        self.cause = match cause {
            Some(c) => Some(Box::new(c)),
            None => None,
        };
    }
}

/// The cause field that records `cause`.
pub open spec fn cause_box(cause: Option<Exception>) -> Option<Box<Exception>> {
    match cause {
        Some(c) => Some(Box::new(c)),
        None => None,
    }
}

/// Whether `e` is the signal that `close` injects.
pub open spec fn is_gen_exit_spec(e: Exception) -> bool {
    e.kind == ExceptionKind::GeneratorExit
}

/// Tells whether `exc` is the generator-exit signal.
pub fn is_gen_exit(exc: &Exception) -> (r: bool)
    ensures
        r == is_gen_exit_spec(*exc),
{
    exc.kind == ExceptionKind::GeneratorExit
}

/// The caller's context: a stack of the exceptions being handled, the
/// current one last. An entry of `None` stands for "no exception".
#[derive(Debug)]
pub struct ExceptionContext {
    stack: Vec<Option<Exception>>,
}

impl View for ExceptionContext {
    type V = Seq<Option<Exception>>;

    closed spec fn view(&self) -> Seq<Option<Exception>> {
        self.stack@
    }
}

/// The entry on top of `s`, or "no exception" where `s` is empty.
pub open spec fn top_of(s: Seq<Option<Exception>>) -> Option<Exception> {
    if s.len() == 0 {
        None
    } else {
        s.last()
    }
}

/// `s` with its top entry taken off, where it has one.
pub open spec fn popped(s: Seq<Option<Exception>>) -> Seq<Option<Exception>> {
    if s.len() == 0 {
        s
    } else {
        s.drop_last()
    }
}

impl ExceptionContext {
    /// A context in which no exception is being handled.
    pub fn new() -> (r: ExceptionContext)
        ensures
            r@ == Seq::<Option<Exception>>::empty(),
    {
        ExceptionContext { stack: Vec::new() }
    }

    /// Makes `exc` the current exception, keeping the one before it below.
    pub fn push_exception(&mut self, exc: Option<Exception>)
        ensures
            final(self)@ == old(self)@.push(exc),
    {
        self.stack.push(exc);
    }

    /// Takes the current exception off the stack and returns it.
    pub fn pop_exception(&mut self) -> (r: Option<Exception>)
        ensures
            r == top_of(old(self)@),
            final(self)@ == popped(old(self)@),
    {
        match self.stack.pop() {
            Some(e) => e,
            None => None,
        }
    }

    /// The exception currently being handled.
    pub fn current_exception(&self) -> (r: Option<&Exception>)
        ensures
            r matches Some(e) ==> top_of(self@) == Some(*e),
            r is None ==> top_of(self@) is None,
    {
        let n = self.stack.len();
        if n == 0 {
            None
        } else {
            self.stack[n - 1].as_ref()
        }
    }

    /// Replaces the current exception, where the stack has an entry.
    pub fn set_current_exception(&mut self, exc: Option<Exception>)
        ensures
            old(self)@.len() == 0 ==> final(self)@ == old(self)@,
            old(self)@.len() > 0 ==> final(self)@ == old(self)@.update(old(self)@.len() - 1, exc),
    {
        let n = self.stack.len();
        if n > 0 {
            self.stack.set(n - 1, exc);
        }
    }

    /// How many entries the stack holds.
    pub fn depth(&self) -> (r: usize)
        ensures
            r == self@.len(),
    {
        self.stack.len()
    }
}

} // verus!
