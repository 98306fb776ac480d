//! The runtime's lifecycle and the error boundary around evaluation.
use vstd::prelude::*;

use crate::builder::{self, Class, Module};
use crate::value::Value;

verus! {

/// A failure reported by the runtime boundary.
#[derive(Debug)]
pub enum ErrorKind {
    /// An internal error of the boundary itself, such as a second runtime.
    VM(String),
    /// The evaluated code raised this exception.
    Exception(Value),
}

/// The process-wide state of the runtime.
#[derive(Clone, Copy, Debug, PartialEq, Eq, Structural)]
pub enum RuntimeState {
    Uninitialized,
    Live,
    ShutDown,
}

/// The record of whether a runtime is live in this process. One of these
/// stands for the whole process, kept behind a lock by its owner; a `VM` is
/// handed out only through it.
pub struct Lifecycle {
    state: RuntimeState,
}

impl Lifecycle {
    pub closed spec fn spec_state(&self) -> RuntimeState {
        self.state
    }

    /// The record at process start: no runtime yet.
    pub fn new() -> (r: Lifecycle)
        ensures
            r.spec_state() == RuntimeState::Uninitialized,
    {
        Lifecycle { state: RuntimeState::Uninitialized }
    }

    pub fn state(&self) -> (r: RuntimeState)
        ensures
            r == self.spec_state(),
    {
        self.state
    }
}

/// The handle that stands for the live runtime. At most one exists at a
/// time: it is made only by `VM::new`, which refuses while one is live.
pub struct VM {
    live: (),
}

/// Which of the runtime's evaluation entry points a request goes through.
#[derive(Clone, Copy, Debug, PartialEq, Eq, Structural)]
pub enum EvalMode {
    /// The protected entry point: top-level bindings persist across calls.
    Persistent,
    /// The wrapping entry point: top-level bindings are discarded afterward.
    Sandboxed,
}

/// A request to evaluate source text, and what to make of its outcome.
pub struct Evaluation {
    pub code: String,
    pub mode: EvalMode,
}

impl VM {
    /// Brings up the runtime: succeeds unless one is live already, in which
    /// case it fails with an internal error and leaves the live one alone.
    /// On success the caller initializes the runtime before using the handle.
    pub fn new(lifecycle: &mut Lifecycle) -> (r: Result<VM, ErrorKind>)
        ensures
            old(lifecycle).spec_state() == RuntimeState::Live ==> {
                &&& r matches Err(ErrorKind::VM(msg))
                &&& msg@ == "can only have one Ruby VM at a time"@
                &&& final(lifecycle).spec_state() == RuntimeState::Live
            },
            old(lifecycle).spec_state() != RuntimeState::Live ==> {
                &&& r is Ok
                &&& final(lifecycle).spec_state() == RuntimeState::Live
            },
    {
        if lifecycle.state == RuntimeState::Live {
            Err(ErrorKind::VM("can only have one Ruby VM at a time".to_owned()))
        } else {
            lifecycle.state = RuntimeState::Live;
            Ok(VM { live: () })
        }
    }

    /// Gives the handle back. Returns whether the runtime must now be torn
    /// down: exactly when it was live, which then becomes shut down.
    pub fn release(self, lifecycle: &mut Lifecycle) -> (teardown: bool)
        ensures
            teardown == (old(lifecycle).spec_state() == RuntimeState::Live),
            final(lifecycle).spec_state() == (if teardown {
                RuntimeState::ShutDown
            } else {
                old(lifecycle).spec_state()
            }),
    {
        if lifecycle.state == RuntimeState::Live {
            lifecycle.state = RuntimeState::ShutDown;
            true
        } else {
            false
        }
    }

    /// Evaluates a line of code; top-level bindings persist.
    pub fn eval(&mut self, code: &str) -> (r: Evaluation)
        ensures
            r.code@ == code@,
            r.mode == EvalMode::Persistent,
    {
        Evaluation { code: code.to_owned(), mode: EvalMode::Persistent }
    }

    /// Evaluates a line of code in a sandbox.
    ///
    /// Any variables defined will not be saved.
    pub fn eval_sandbox(&mut self, code: &str) -> (r: Evaluation)
        ensures
            r.code@ == code@,
            r.mode == EvalMode::Sandboxed,
    {
        Evaluation { code: code.to_owned(), mode: EvalMode::Sandboxed }
    }

    /// Creates a new class.
    pub fn class(&mut self, name: &str) -> (r: Class)
        ensures
            r@ == Class::spec_new(name@, None),
    {
        builder::Class::new(name)
    }

    /// Creates a new module.
    pub fn module(&mut self, name: &str) -> (r: Module)
        ensures
            r@ == Module::spec_new(name@, None),
    {
        builder::Module::new(name)
    }
}

impl Evaluation {
    /// Whether the status code the entry point reported means an exception
    /// was raised, so that the pending-exception slot must be read and then
    /// cleared before `finish`.
    pub fn raised(status: i32) -> (r: bool)
        ensures
            r == (status != 0),
    {
        status != 0
    }

    /// The outcome of the evaluation, from the status code the entry point
    /// reported, the value it returned, and the exception taken out of the
    /// pending slot (consulted only when the status reports a failure).
    pub fn finish(self, status: i32, result: Value, exception: Value) -> (r: Result<Value, ErrorKind>)
        ensures
            status == 0 ==> (r matches Ok(v) && v == result),
            status != 0 ==> (r matches Err(ErrorKind::Exception(e)) && e == exception),
    {
        if Evaluation::raised(status) {
            Err(ErrorKind::Exception(exception))
        } else {
            Ok(result)
        }
    }
}

} // verus!
