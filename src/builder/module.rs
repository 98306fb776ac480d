//! The module builder.
use vstd::prelude::*;

use super::{append_steps, push_step, steps, Step, StepModel};
use crate::value::Value;

verus! {

/// A module builder: the description of a module that `plan` turns into
/// registration steps.
pub struct Module {
    name: String,
    parent: Option<Value>,
    constants: Vec<Step>,
    included_modules: Vec<Step>,
    prepended_modules: Vec<Step>,
    functions: Vec<Step>,
}

/// What a module builder holds: the module's name, its namespace (`None`
/// for the top level), and the steps of each section in declaration order.
pub struct ModuleModel {
    pub name: Seq<char>,
    pub parent: Option<Value>,
    pub constants: Seq<StepModel>,
    pub included_modules: Seq<StepModel>,
    pub prepended_modules: Seq<StepModel>,
    pub functions: Seq<StepModel>,
}

impl ModuleModel {
    /// The registration calls for this module, in the order the runtime
    /// needs them: create the module, then its functions, included modules,
    /// prepended modules and constants.
    pub open spec fn plan(self) -> Seq<StepModel> {
        seq![StepModel::DefineModule { name: self.name, parent: self.parent }] + self.functions
            + self.included_modules + self.prepended_modules + self.constants
    }
}

impl View for Module {
    type V = ModuleModel;

    closed spec fn view(&self) -> ModuleModel {
        ModuleModel {
            name: self.name@,
            parent: self.parent,
            constants: steps(self.constants@),
            included_modules: steps(self.included_modules@),
            prepended_modules: steps(self.prepended_modules@),
            functions: steps(self.functions@),
        }
    }
}

impl Module {
    /// A fresh description with nothing declared yet.
    pub open spec fn spec_new(name: Seq<char>, parent: Option<Value>) -> ModuleModel {
        ModuleModel {
            name,
            parent,
            constants: Seq::empty(),
            included_modules: Seq::empty(),
            prepended_modules: Seq::empty(),
            functions: Seq::empty(),
        }
    }

    /// Creates a new module under the global scope.
    pub fn new(name: &str) -> (r: Self)
        ensures
            r@ == Module::spec_new(name@, None),
    {
        Self::new_under(name, None)
    }

    /// Creates a new module under a value (module, class, etc), or at the
    /// top level when `parent` is `None`.
    pub fn new_under(name: &str, parent: Option<Value>) -> (r: Self)
        ensures
            r@ == Module::spec_new(name@, parent),
    {
        let r = Module {
            name: name.to_owned(),
            parent: parent,
            constants: Vec::new(),
            included_modules: Vec::new(),
            prepended_modules: Vec::new(),
            functions: Vec::new(),
        };
        assert(r@.constants =~= Seq::empty());
        assert(r@.included_modules =~= Seq::empty());
        assert(r@.prepended_modules =~= Seq::empty());
        assert(r@.functions =~= Seq::empty());
        r
    }

    /// Adds a constant to the module.
    pub fn constant(self, name: &str, value: Value) -> (r: Self)
        ensures
            r@ == (ModuleModel {
                constants: self@.constants.push(StepModel::DefineConst { name: name@, value }),
                ..self@
            }),
    {
        let mut s = self;
        push_step(&mut s.constants, Step::DefineConst { name: name.to_owned(), value });
        s
    }

    /// Includes a module.
    pub fn include_module(self, module: Value) -> (r: Self)
        ensures
            r@ == (ModuleModel {
                included_modules: self@.included_modules.push(StepModel::Include { module }),
                ..self@
            }),
    {
        let mut s = self;
        push_step(&mut s.included_modules, Step::Include { module });
        s
    }

    /// Prepends a module.
    pub fn prepend(self, module: Value) -> (r: Self)
        ensures
            r@ == (ModuleModel {
                prepended_modules: self@.prepended_modules.push(StepModel::Prepend { module }),
                ..self@
            }),
    {
        let mut s = self;
        push_step(&mut s.prepended_modules, Step::Prepend { module });
        s
    }

    /// Defines a module function: the function at `func_addr`, taking
    /// `arg_count` arguments. The function's real signature must match the
    /// arity; nothing here can check that.
    pub fn function(self, name: &str, func_addr: usize, arg_count: u8) -> (r: Self)
        ensures
            r@ == (ModuleModel {
                functions: self@.functions.push(
                    StepModel::DefineModuleFunction {
                        name: name@,
                        func: func_addr,
                        arity: arg_count as i32,
                    },
                ),
                ..self@
            }),
    {
        let mut s = self;
        let step = Step::DefineModuleFunction {
            name: name.to_owned(),
            func: func_addr,
            arity: arg_count as i32,
        };
        push_step(&mut s.functions, step);
        s
    }

    /// Turns the description into its registration steps, consuming it.
    pub fn plan(self) -> (r: Vec<Step>)
        ensures
            steps(r@) == self@.plan(),
    {
        let ghost m = self@;
        let mut s = self;
        let mut r: Vec<Step> = Vec::new();
        push_step(&mut r, Step::DefineModule { name: s.name, parent: s.parent });
        assert(steps(r@) =~= seq![StepModel::DefineModule { name: m.name, parent: m.parent }]);
        append_steps(&mut r, &mut s.functions);
        append_steps(&mut r, &mut s.included_modules);
        append_steps(&mut r, &mut s.prepended_modules);
        append_steps(&mut r, &mut s.constants);
        r
    }
}

} // verus!
