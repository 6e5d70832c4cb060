use coroutine::coro::{check_send_value, Coro, Frame};
use coroutine::exception::{is_gen_exit, Exception, ExceptionContext, ExceptionKind};
use coroutine::outcome::{
    gen_name, translate_close, translate_send, translate_throw, CoroKind, ExecutionResult,
    IterReturn,
};

/// A frame that answers each call with the next scripted outcome and
/// records what it was handed.
struct Script {
    lasti: u32,
    steps: Vec<Result<ExecutionResult<String>, Exception>>,
    resumed_with: Vec<Option<String>>,
    thrown: Vec<ExceptionKind>,
    seen_current: Vec<Option<String>>,
    raise_inside: Option<String>,
}

impl Script {
    fn new(steps: Vec<Result<ExecutionResult<String>, Exception>>) -> Script {
        Script {
            lasti: 0,
            steps,
            resumed_with: Vec::new(),
            thrown: Vec::new(),
            seen_current: Vec::new(),
            raise_inside: None,
        }
    }

    fn step(&mut self, ctx: &mut ExceptionContext) -> Result<ExecutionResult<String>, Exception> {
        self.seen_current
            .push(ctx.current_exception().map(|e| e.message.clone()));
        if let Some(msg) = self.raise_inside.take() {
            ctx.set_current_exception(Some(Exception::new(ExceptionKind::Other, &msg)));
        }
        self.lasti += 2;
        self.steps.remove(0)
    }

    fn calls(&self) -> usize {
        self.resumed_with.len() + self.thrown.len()
    }
}

impl Frame for Script {
    type Value = String;

    fn spec_lasti(&self) -> u32 {
        self.lasti
    }

    fn lasti(&self) -> u32 {
        self.lasti
    }

    fn resume(
        &mut self,
        value: Option<String>,
        ctx: &mut ExceptionContext,
    ) -> Result<ExecutionResult<String>, Exception> {
        self.resumed_with.push(value);
        self.step(ctx)
    }

    fn gen_throw(
        &mut self,
        exc: Exception,
        ctx: &mut ExceptionContext,
    ) -> Result<ExecutionResult<String>, Exception> {
        self.thrown.push(exc.kind);
        self.step(ctx)
    }
}

fn yield_(v: &str) -> Result<ExecutionResult<String>, Exception> {
    Ok(ExecutionResult::Yield(Some(v.to_string())))
}

fn ret(v: Option<&str>) -> Result<ExecutionResult<String>, Exception> {
    Ok(ExecutionResult::Return(v.map(|s| s.to_string())))
}

fn raise(kind: ExceptionKind, msg: &str) -> Result<ExecutionResult<String>, Exception> {
    Err(Exception::new(kind, msg))
}

fn gen(steps: Vec<Result<ExecutionResult<String>, Exception>>, kind: CoroKind) -> Coro<Script> {
    Coro::new(Script::new(steps), "g".to_string(), kind)
}

fn produced(v: &str) -> Result<IterReturn<String>, Exception> {
    Ok(IterReturn::Return(Some(v.to_string())))
}

fn terminated(v: Option<&str>) -> Result<IterReturn<String>, Exception> {
    Ok(IterReturn::StopIteration(v.map(|s| s.to_string())))
}

#[test]
fn yield_then_return_scenario() {
    let mut ctx = ExceptionContext::new();
    let mut g = gen(vec![yield_("7"), ret(Some("done"))], CoroKind::Generator);
    assert_eq!(g.send(None, &mut ctx), produced("7"));
    assert!(!g.closed());
    assert_eq!(g.send(None, &mut ctx), terminated(Some("done")));
    assert!(g.closed());
    assert_eq!(g.frame().resumed_with, vec![None, None]);
    assert_eq!(ctx.depth(), 0);
}

#[test]
fn started_frame_receives_sent_value() {
    let mut ctx = ExceptionContext::new();
    let mut g = gen(vec![yield_("a"), yield_("b")], CoroKind::Generator);
    assert_eq!(g.send(None, &mut ctx), produced("a"));
    assert_eq!(g.send(Some("x".to_string()), &mut ctx), produced("b"));
    assert_eq!(g.frame().resumed_with, vec![None, Some("x".to_string())]);
}

#[test]
fn close_never_started_scenario() {
    let mut ctx = ExceptionContext::new();
    let mut g = gen(vec![raise(ExceptionKind::GeneratorExit, "")], CoroKind::Generator);
    assert_eq!(g.close(&mut ctx), Ok(()));
    assert!(g.closed());
    assert_eq!(g.frame().calls(), 1);
    assert_eq!(g.frame().thrown, vec![ExceptionKind::GeneratorExit]);
    assert_eq!(g.send(None, &mut ctx), terminated(None));
    assert_eq!(g.close(&mut ctx), Ok(()));
    assert_eq!(g.frame().calls(), 1);
}

#[test]
fn close_is_terminal() {
    let mut ctx = ExceptionContext::new();
    let mut g = gen(vec![yield_("1"), ret(None)], CoroKind::Coroutine);
    assert_eq!(g.send(None, &mut ctx), produced("1"));
    assert_eq!(g.close(&mut ctx), Ok(()));
    assert!(g.closed());
    assert_eq!(g.send(Some("v".to_string()), &mut ctx), terminated(None));
    let r = g.throw(Exception::new(ExceptionKind::Other, "boom"), &mut ctx);
    assert_eq!(r, Err(Exception::new(ExceptionKind::Other, "boom")));
    assert_eq!(g.frame().calls(), 2);
    assert!(!g.running());
}

#[test]
fn close_after_error_is_still_terminal() {
    let mut ctx = ExceptionContext::new();
    let mut g = gen(vec![yield_("1"), raise(ExceptionKind::Other, "bad")], CoroKind::Generator);
    g.send(None, &mut ctx).unwrap();
    assert_eq!(g.close(&mut ctx), Err(Exception::new(ExceptionKind::Other, "bad")));
    assert!(g.closed());
    assert_eq!(g.send(None, &mut ctx), terminated(None));
    assert_eq!(g.frame().calls(), 2);
}

#[test]
fn fresh_send_of_value_rejected_for_every_kind() {
    for (kind, name) in [
        (CoroKind::Generator, "generator"),
        (CoroKind::Coroutine, "coroutine"),
        (CoroKind::AsyncGenerator, "async generator"),
    ] {
        let mut ctx = ExceptionContext::new();
        let mut g = gen(vec![yield_("1")], kind);
        let err = g.send(Some("x".to_string()), &mut ctx).unwrap_err();
        assert_eq!(err.kind, ExceptionKind::TypeError);
        assert_eq!(
            err.message,
            format!("can't send non-None value to a just-started {}", name)
        );
        assert!(!g.closed());
        assert_eq!(g.frame().calls(), 0);
    }
}

#[test]
fn check_send_value_cases() {
    assert_eq!(check_send_value(CoroKind::Generator, 0, None::<u8>), Ok(None));
    assert_eq!(check_send_value(CoroKind::Generator, 3, Some(4u8)), Ok(Some(4)));
    assert_eq!(check_send_value(CoroKind::Generator, 3, None::<u8>), Ok(None));
    let err = check_send_value(CoroKind::Coroutine, 0, Some(4u8)).unwrap_err();
    assert_eq!(err.kind, ExceptionKind::TypeError);
}

#[test]
fn reentry_refused() {
    let mut ctx = ExceptionContext::new();
    let mut g = gen(vec![yield_("1"), yield_("2")], CoroKind::Generator);
    g.send(None, &mut ctx).unwrap();
    g.enter(&mut ctx).unwrap();
    assert!(g.running());
    let e1 = g.send(None, &mut ctx).unwrap_err();
    assert_eq!(e1.kind, ExceptionKind::ValueError);
    assert_eq!(e1.message, "generator already executing");
    let e2 = g.throw(Exception::new(ExceptionKind::Other, "x"), &mut ctx).unwrap_err();
    assert_eq!(e2.kind, ExceptionKind::ValueError);
    let e3 = g.close(&mut ctx).unwrap_err();
    assert_eq!(e3.kind, ExceptionKind::ValueError);
    assert!(!g.closed());
    assert_eq!(g.frame().calls(), 1);
    let e4 = g.enter(&mut ctx).unwrap_err();
    assert_eq!(e4.message, "generator already executing");
    g.leave(&mut ctx);
    assert!(!g.running());
    assert_eq!(g.send(None, &mut ctx), produced("2"));
}

#[test]
fn reentry_names_the_kind() {
    let mut ctx = ExceptionContext::new();
    let mut g = gen(vec![], CoroKind::AsyncGenerator);
    g.enter(&mut ctx).unwrap();
    let e = g.close(&mut ctx).unwrap_err();
    assert_eq!(e.message, "async generator already executing");
    assert!(!g.closed());
}

#[test]
fn return_none_terminates_with_nothing() {
    let mut ctx = ExceptionContext::new();
    let mut g = gen(vec![ret(None)], CoroKind::Generator);
    assert_eq!(g.send(None, &mut ctx), terminated(None));
    assert!(g.closed());
}

#[test]
fn self_raised_stop_iteration_wrapped() {
    let mut ctx = ExceptionContext::new();
    let mut g = gen(vec![raise(ExceptionKind::StopIteration, "inner")], CoroKind::Coroutine);
    let err = g.send(None, &mut ctx).unwrap_err();
    assert_eq!(err.kind, ExceptionKind::RuntimeError);
    assert_eq!(err.message, "coroutine raised StopIteration");
    assert_eq!(
        err.cause,
        Some(Box::new(Exception::new(ExceptionKind::StopIteration, "inner")))
    );
    assert!(g.closed());
}

#[test]
fn self_raised_stop_async_iteration_wrapped_for_async_generator() {
    let mut ctx = ExceptionContext::new();
    let mut g = gen(
        vec![raise(ExceptionKind::StopAsyncIteration, "a")],
        CoroKind::AsyncGenerator,
    );
    let err = g.send(None, &mut ctx).unwrap_err();
    assert_eq!(err.kind, ExceptionKind::RuntimeError);
    assert_eq!(err.message, "async generator raised StopAsyncIteration");
    assert_eq!(
        err.cause,
        Some(Box::new(Exception::new(ExceptionKind::StopAsyncIteration, "a")))
    );
    assert!(g.closed());
}

#[test]
fn stop_async_iteration_passes_through_plain_generator() {
    let mut ctx = ExceptionContext::new();
    let mut g = gen(vec![raise(ExceptionKind::StopAsyncIteration, "a")], CoroKind::Generator);
    let err = g.send(None, &mut ctx).unwrap_err();
    assert_eq!(err, Exception::new(ExceptionKind::StopAsyncIteration, "a"));
    assert!(g.closed());
}

#[test]
fn other_error_propagates_and_closes() {
    let mut ctx = ExceptionContext::new();
    let mut g = gen(vec![raise(ExceptionKind::Other, "oops")], CoroKind::Generator);
    let err = g.send(None, &mut ctx).unwrap_err();
    assert_eq!(err, Exception::new(ExceptionKind::Other, "oops"));
    assert!(g.closed());
}

#[test]
fn throw_does_not_wrap_stop_iteration() {
    let mut ctx = ExceptionContext::new();
    let mut g = gen(
        vec![yield_("1"), raise(ExceptionKind::StopIteration, "s")],
        CoroKind::Generator,
    );
    g.send(None, &mut ctx).unwrap();
    let err = g
        .throw(Exception::new(ExceptionKind::ValueError, "in"), &mut ctx)
        .unwrap_err();
    assert_eq!(err, Exception::new(ExceptionKind::StopIteration, "s"));
    assert!(g.closed());
}

#[test]
fn throw_into_fresh_computation() {
    let mut ctx = ExceptionContext::new();
    let mut g = gen(vec![yield_("caught")], CoroKind::Generator);
    let r = g.throw(Exception::new(ExceptionKind::ValueError, "v"), &mut ctx);
    assert_eq!(r, produced("caught"));
    assert!(!g.closed());
    assert_eq!(g.frame().thrown, vec![ExceptionKind::ValueError]);
}

#[test]
fn close_ignored_exit_reports_runtime_error() {
    let mut ctx = ExceptionContext::new();
    let mut g = gen(vec![yield_("1"), yield_("again")], CoroKind::Generator);
    g.send(None, &mut ctx).unwrap();
    let err = g.close(&mut ctx).unwrap_err();
    assert_eq!(err.kind, ExceptionKind::RuntimeError);
    assert_eq!(err.message, "generator ignored GeneratorExit");
    assert_eq!(err.cause, None);
    assert!(g.closed());
}

#[test]
fn close_with_return_succeeds() {
    let mut ctx = ExceptionContext::new();
    let mut g = gen(vec![ret(Some("r"))], CoroKind::Coroutine);
    assert_eq!(g.close(&mut ctx), Ok(()));
    assert!(g.closed());
}

#[test]
fn exception_slot_saved_across_suspension() {
    let mut ctx = ExceptionContext::new();
    ctx.push_exception(Some(Exception::new(ExceptionKind::Other, "caller")));
    let mut g = gen(vec![yield_("1"), yield_("2")], CoroKind::Generator);
    let mut script = Script::new(vec![yield_("1"), yield_("2")]);
    script.raise_inside = Some("inside".to_string());
    let mut g2 = Coro::new(script, "h".to_string(), CoroKind::Generator);
    assert_eq!(g2.send(None, &mut ctx), produced("1"));
    // The caller's own exception is back on top after the resumption.
    assert_eq!(ctx.depth(), 1);
    assert_eq!(ctx.current_exception().unwrap().message, "caller");
    assert_eq!(g2.send(None, &mut ctx), produced("2"));
    // The second resumption sees the exception saved by the first.
    assert_eq!(
        g2.frame().seen_current,
        vec![None, Some("inside".to_string())]
    );
    assert_eq!(ctx.current_exception().unwrap().message, "caller");
    assert_eq!(g.send(None, &mut ctx), produced("1"));
    assert_eq!(g.frame().seen_current, vec![None]);
}

#[test]
fn name_and_repr() {
    let mut g = gen(vec![], CoroKind::Coroutine);
    assert_eq!(g.name(), "g");
    g.set_name("worker".to_string());
    assert_eq!(g.name(), "worker");
    assert_eq!(g.kind(), CoroKind::Coroutine);
    assert_eq!(g.repr(0x7f3a), "<coroutine object worker at 0x7f3a>");
    assert_eq!(g.repr(0), "<coroutine object worker at 0x0>");
    let a = gen(vec![], CoroKind::AsyncGenerator);
    assert_eq!(a.repr(255), "<async generator object g at 0xff>");
}

#[test]
fn gen_names() {
    assert_eq!(gen_name(CoroKind::Generator), "generator");
    assert_eq!(gen_name(CoroKind::Coroutine), "coroutine");
    assert_eq!(gen_name(CoroKind::AsyncGenerator), "async generator");
}

#[test]
fn translate_functions() {
    let r = translate_send(CoroKind::Generator, Ok(ExecutionResult::Yield(Some(7u8))));
    assert_eq!(r, Ok(IterReturn::Return(Some(7))));
    let r = translate_send(CoroKind::Generator, Ok(ExecutionResult::Return(Some(9u8))));
    assert_eq!(r, Ok(IterReturn::StopIteration(Some(9))));
    let r = translate_throw(Ok(ExecutionResult::Return(None::<u8>)));
    assert_eq!(r, Ok(IterReturn::StopIteration(None)));
    let r = translate_close(
        CoroKind::Generator,
        Err::<ExecutionResult<u8>, _>(Exception::new(ExceptionKind::GeneratorExit, "")),
    );
    assert_eq!(r, Ok(()));
    let r = translate_close(
        CoroKind::Coroutine,
        Ok(ExecutionResult::Yield(Some(1u8))),
    );
    assert_eq!(r.unwrap_err().message, "coroutine ignored GeneratorExit");
    assert_eq!(
        ExecutionResult::Yield(Some(3u8)).into_iter_return(),
        IterReturn::Return(Some(3))
    );
}

#[test]
fn gen_exit_detection() {
    assert!(is_gen_exit(&Exception::new(ExceptionKind::GeneratorExit, "")));
    assert!(!is_gen_exit(&Exception::new(ExceptionKind::StopIteration, "")));
}

#[test]
fn exception_context_stack() {
    let mut ctx = ExceptionContext::new();
    assert_eq!(ctx.pop_exception(), None);
    assert!(ctx.current_exception().is_none());
    ctx.push_exception(Some(Exception::new(ExceptionKind::Other, "a")));
    ctx.push_exception(None);
    assert!(ctx.current_exception().is_none());
    ctx.set_current_exception(Some(Exception::new(ExceptionKind::Other, "b")));
    assert_eq!(ctx.current_exception().unwrap().message, "b");
    assert_eq!(ctx.depth(), 2);
    assert_eq!(ctx.pop_exception().unwrap().message, "b");
    assert_eq!(ctx.pop_exception().unwrap().message, "a");
    assert_eq!(ctx.depth(), 0);
}

#[test]
fn exception_cause() {
    let mut e = Exception::new(ExceptionKind::RuntimeError, "outer");
    e.set_cause(Some(Exception::new(ExceptionKind::Other, "inner")));
    assert_eq!(e.cause.as_ref().unwrap().message, "inner");
    e.set_cause(None);
    assert_eq!(e.cause, None);
}
