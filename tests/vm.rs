use rurust::ffi::ty::ClassOf;
use rurust::ffi::{RBasic, VALUE};
use rurust::vm::{EvalMode, Evaluation, Lifecycle, RuntimeState};
use rurust::{ErrorKind, Value, VM};

/// Stands for the runtime's `SyntaxError` class in these tests.
const SYNTAX_ERROR_CLASS: usize = 0x7f00_5000;

/// What the runtime hands back for each evaluated line in these tests: a
/// syntax error for malformed code, the integer 1 otherwise.
fn run(ev: &Evaluation) -> (i32, Value, Value) {
    if ev.code.contains("<===-") {
        let exc = Value::from_raw(
            VALUE(0x7f00_6000),
            RBasic { flags: VALUE(0x01), klass: VALUE(SYNTAX_ERROR_CLASS) },
        );
        (6, Value::nil(), exc)
    } else {
        (0, Value::from_raw(VALUE(0x03), RBasic::empty()), Value::nil())
    }
}

fn eval(vm: &mut VM, code: &str) -> Result<Value, ErrorKind> {
    let ev = vm.eval(code);
    let (status, result, exc) = run(&ev);
    ev.finish(status, result, exc)
}

fn returns_syntax_errors_as_results(vm: &mut VM) {
    let e = eval(vm, "a <===- 2").unwrap_err();

    match e {
        ErrorKind::Exception(e) => {
            assert_eq!(e.class_source(), ClassOf::Header);
            assert_eq!(e.header.klass, VALUE(SYNTAX_ERROR_CLASS));
        }
        _ => panic!("unexpected exception type"),
    }
}

fn can_eval_simple_assignment(vm: &mut VM) {
    eval(vm, "a = 1").unwrap();
}

#[test]
fn tests() {
    let mut lifecycle = Lifecycle::new();
    let mut vm = VM::new(&mut lifecycle).unwrap();

    returns_syntax_errors_as_results(&mut vm);
    can_eval_simple_assignment(&mut vm);
}

#[test]
fn second_runtime_is_refused_and_first_stays_live() {
    let mut lifecycle = Lifecycle::new();
    assert_eq!(lifecycle.state(), RuntimeState::Uninitialized);
    let vm = VM::new(&mut lifecycle).unwrap();
    assert_eq!(lifecycle.state(), RuntimeState::Live);
    match VM::new(&mut lifecycle) {
        Err(ErrorKind::VM(msg)) => assert_eq!(msg, "can only have one Ruby VM at a time"),
        _ => panic!("a second runtime was handed out"),
    }
    assert_eq!(lifecycle.state(), RuntimeState::Live);
    assert!(vm.release(&mut lifecycle));
    assert_eq!(lifecycle.state(), RuntimeState::ShutDown);
}

#[test]
fn release_tears_down_once() {
    let mut lifecycle = Lifecycle::new();
    let vm = VM::new(&mut lifecycle).unwrap();
    assert!(vm.release(&mut lifecycle));
    let again = VM::new(&mut lifecycle).unwrap();
    assert_eq!(lifecycle.state(), RuntimeState::Live);
    assert!(again.release(&mut lifecycle));
    let mut other = Lifecycle::new();
    let stray = VM::new(&mut other).unwrap();
    assert!(!stray.release(&mut lifecycle));
    assert_eq!(lifecycle.state(), RuntimeState::ShutDown);
}

#[test]
fn evaluation_modes() {
    let mut lifecycle = Lifecycle::new();
    let mut vm = VM::new(&mut lifecycle).unwrap();
    let p = vm.eval("1 + 1");
    assert_eq!(p.mode, EvalMode::Persistent);
    assert_eq!(p.code, "1 + 1");
    let s = vm.eval_sandbox("secret = 5");
    assert_eq!(s.mode, EvalMode::Sandboxed);
    assert_eq!(s.code, "secret = 5");
}

#[test]
fn evaluation_outcomes() {
    let two = Value::from_raw(VALUE(0x05), RBasic::empty());
    let exc = Value::from_raw(VALUE(0x9000), RBasic { flags: VALUE(0x01), klass: VALUE(0x9100) });
    assert!(!Evaluation::raised(0));
    assert!(Evaluation::raised(6));
    assert!(Evaluation::raised(-1));
    let ev = Evaluation { code: "1 + 1".to_owned(), mode: EvalMode::Persistent };
    match ev.finish(0, two, Value::nil()) {
        Ok(v) => {
            assert_eq!(v.word, VALUE(0x05));
            assert!(v.is_integer());
        }
        Err(_) => panic!("a successful status gave an error"),
    }
    let ev = Evaluation { code: "a = ".to_owned(), mode: EvalMode::Persistent };
    match ev.finish(6, Value::nil(), exc) {
        Err(ErrorKind::Exception(e)) => assert_eq!(e.word, VALUE(0x9000)),
        _ => panic!("a failed status did not give the exception"),
    }
}

#[test]
fn builders_from_the_handle() {
    let mut lifecycle = Lifecycle::new();
    let mut vm = VM::new(&mut lifecycle).unwrap();
    let plan = vm.class("Abc").plan();
    assert!(matches!(&plan[0], rurust::builder::Step::DefineClass { name, parent: None, .. } if name == "Abc"));
    let plan = vm.module("Mod").plan();
    assert!(matches!(&plan[0], rurust::builder::Step::DefineModule { name, parent: None } if name == "Mod"));
}

#[test]
fn one_plus_one_goes_through_the_persistent_entry() {
    let mut lifecycle = Lifecycle::new();
    let mut vm = VM::new(&mut lifecycle).unwrap();
    let request = vm.eval("1 + 1");
    assert_eq!(request.mode, EvalMode::Persistent);
    // The runtime answers with the fixnum word of 2.
    let two = Value::from_raw(VALUE(0x05), RBasic::empty());
    let v = request.finish(0, two, Value::nil()).unwrap();
    assert!(v.is_integer());
    assert_eq!(v.word.0 >> 1, 2);
}

#[test]
fn sandboxed_assignment_goes_through_the_wrapping_entry() {
    let mut lifecycle = Lifecycle::new();
    let mut vm = VM::new(&mut lifecycle).unwrap();
    let sandboxed = vm.eval_sandbox("hidden = 1");
    assert_eq!(sandboxed.mode, EvalMode::Sandboxed);
    let later = vm.eval("hidden");
    assert_eq!(later.mode, EvalMode::Persistent);
}
