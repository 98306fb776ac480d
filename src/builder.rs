//! Registration builders. A class or module is described fluently and then
//! turned, once, into the ordered list of registration calls that creates it
//! in the runtime.
use vstd::prelude::*;

use crate::value::Value;

pub mod klass;
pub mod module;

pub use self::klass::Class;
pub use self::module::Module;

verus! {

/// One registration call into the runtime. Every step after the first acts
/// on the class or module that the first one creates.
#[derive(Clone, Debug)]
pub enum Step {
    /// Create a class under `parent` (the top level when `None`), inheriting
    /// from `superclass` (`Object` when `None`).
    DefineClass { name: String, parent: Option<Value>, superclass: Option<Value> },
    /// Create a module under `parent` (the top level when `None`).
    DefineModule { name: String, parent: Option<Value> },
    /// Define an instance method: the function at `func`, taking `arity`
    /// arguments.
    DefineMethod { name: String, func: usize, arity: i32 },
    /// Define a module-level function, callable on the class or module itself.
    DefineModuleFunction { name: String, func: usize, arity: i32 },
    /// Mix a module in after the target in method lookup.
    Include { module: Value },
    /// Mix a module in before the target in method lookup.
    Prepend { module: Value },
    /// Define a constant.
    DefineConst { name: String, value: Value },
    /// Make `new_name` another name of the method `original_name`.
    DefineAlias { new_name: String, original_name: String },
    /// Generate a reader and/or a writer for an instance variable.
    DefineAttr { name: String, reader: bool, writer: bool },
}

/// A registration call, with its names as character sequences.
pub enum StepModel {
    DefineClass { name: Seq<char>, parent: Option<Value>, superclass: Option<Value> },
    DefineModule { name: Seq<char>, parent: Option<Value> },
    DefineMethod { name: Seq<char>, func: usize, arity: i32 },
    DefineModuleFunction { name: Seq<char>, func: usize, arity: i32 },
    Include { module: Value },
    Prepend { module: Value },
    DefineConst { name: Seq<char>, value: Value },
    DefineAlias { new_name: Seq<char>, original_name: Seq<char> },
    DefineAttr { name: Seq<char>, reader: bool, writer: bool },
}

impl View for Step {
    type V = StepModel;

    open spec fn view(&self) -> StepModel {
        match self {
            Step::DefineClass { name, parent, superclass } => StepModel::DefineClass {
                name: name@,
                parent: *parent,
                superclass: *superclass,
            },
            Step::DefineModule { name, parent } => StepModel::DefineModule {
                name: name@,
                parent: *parent,
            },
            Step::DefineMethod { name, func, arity } => StepModel::DefineMethod {
                name: name@,
                func: *func,
                arity: *arity,
            },
            Step::DefineModuleFunction { name, func, arity } => StepModel::DefineModuleFunction {
                name: name@,
                func: *func,
                arity: *arity,
            },
            Step::Include { module } => StepModel::Include { module: *module },
            Step::Prepend { module } => StepModel::Prepend { module: *module },
            Step::DefineConst { name, value } => StepModel::DefineConst {
                name: name@,
                value: *value,
            },
            Step::DefineAlias { new_name, original_name } => StepModel::DefineAlias {
                new_name: new_name@,
                original_name: original_name@,
            },
            Step::DefineAttr { name, reader, writer } => StepModel::DefineAttr {
                name: name@,
                reader: *reader,
                writer: *writer,
            },
        }
    }
}

/// The models of a list of steps.
pub open spec fn steps(s: Seq<Step>) -> Seq<StepModel> {
    s.map_values(|x: Step| x@)
}

pub proof fn lemma_steps_add(a: Seq<Step>, b: Seq<Step>)
    ensures
        steps(a + b) == steps(a) + steps(b),
{
    assert(steps(a + b) =~= steps(a) + steps(b));
}

pub proof fn lemma_steps_push(a: Seq<Step>, x: Step)
    ensures
        steps(a.push(x)) == steps(a).push(x@),
{
    assert(steps(a.push(x)) =~= steps(a).push(x@));
}

/// Appends the steps of `tail` to `plan`, leaving `tail` empty.
pub(crate) fn append_steps(plan: &mut Vec<Step>, tail: &mut Vec<Step>)
    ensures
        steps(final(plan)@) == steps(old(plan)@) + steps(old(tail)@),
        final(tail)@.len() == 0,
{
    plan.append(tail);
    proof {
        lemma_steps_add(old(plan)@, old(tail)@);
    }
}

/// Adds one step to the end of `list`.
pub(crate) fn push_step(list: &mut Vec<Step>, step: Step)
    ensures
        steps(final(list)@) == steps(old(list)@).push(step@),
{
    let ghost s = step;
    list.push(step);
    proof {
        lemma_steps_push(old(list)@, s);
    }
}

} // verus!
