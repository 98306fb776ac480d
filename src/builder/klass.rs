//! The class builder.
use vstd::prelude::*;

use super::{append_steps, push_step, steps, Step, StepModel};
use crate::value::Value;

verus! {

/// A class builder: the description of a class that `plan` turns into
/// registration steps.
pub struct Class {
    name: String,
    base_class: Option<Value>,
    parent: Option<Value>,
    methods: Vec<Step>,
    singleton_methods: Vec<Step>,
    included_modules: Vec<Step>,
    prepended_modules: Vec<Step>,
    constants: Vec<Step>,
    aliases: Vec<Step>,
    accessors: Vec<Step>,
}

/// What a class builder holds: the class's name, its base class (`None`
/// for `Object`) and namespace (`None` for the top level), and the steps of
/// each section in the order they were declared.
pub struct ClassModel {
    pub name: Seq<char>,
    pub base_class: Option<Value>,
    pub parent: Option<Value>,
    pub methods: Seq<StepModel>,
    pub singleton_methods: Seq<StepModel>,
    pub included_modules: Seq<StepModel>,
    pub prepended_modules: Seq<StepModel>,
    pub constants: Seq<StepModel>,
    pub aliases: Seq<StepModel>,
    pub accessors: Seq<StepModel>,
}

impl ClassModel {
    /// The registration calls for this class, in the order the runtime needs
    /// them: create the class, then instance methods, singleton methods,
    /// included modules, prepended modules, constants, aliases and accessors.
    pub open spec fn plan(self) -> Seq<StepModel> {
        seq![StepModel::DefineClass { name: self.name, parent: self.parent, superclass: self.base_class }]
            + self.methods + self.singleton_methods + self.included_modules
            + self.prepended_modules + self.constants + self.aliases + self.accessors
    }
}

impl View for Class {
    type V = ClassModel;

    closed spec fn view(&self) -> ClassModel {
        ClassModel {
            name: self.name@,
            base_class: self.base_class,
            parent: self.parent,
            methods: steps(self.methods@),
            singleton_methods: steps(self.singleton_methods@),
            included_modules: steps(self.included_modules@),
            prepended_modules: steps(self.prepended_modules@),
            constants: steps(self.constants@),
            aliases: steps(self.aliases@),
            accessors: steps(self.accessors@),
        }
    }
}

impl Class {
    /// A fresh description: nothing declared yet, based on `Object`.
    pub open spec fn spec_new(name: Seq<char>, parent: Option<Value>) -> ClassModel {
        ClassModel {
            name,
            base_class: None,
            parent,
            methods: Seq::empty(),
            singleton_methods: Seq::empty(),
            included_modules: Seq::empty(),
            prepended_modules: Seq::empty(),
            constants: Seq::empty(),
            aliases: Seq::empty(),
            accessors: Seq::empty(),
        }
    }

    /// Starts a class at the top level.
    pub fn new(name: &str) -> (r: Self)
        ensures
            r@ == Class::spec_new(name@, None),
    {
        Self::new_under(name, None)
    }

    /// Starts a class under `parent` (a class or module), or at the top
    /// level when `parent` is `None`.
    pub fn new_under(name: &str, parent: Option<Value>) -> (r: Self)
        ensures
            r@ == Class::spec_new(name@, parent),
    {
        let r = Class {
            name: name.to_owned(),
            base_class: None,
            parent: parent,
            methods: Vec::new(),
            singleton_methods: Vec::new(),
            included_modules: Vec::new(),
            prepended_modules: Vec::new(),
            constants: Vec::new(),
            aliases: Vec::new(),
            accessors: Vec::new(),
        };
        assert(r@.methods =~= Seq::empty());
        assert(r@.singleton_methods =~= Seq::empty());
        assert(r@.included_modules =~= Seq::empty());
        assert(r@.prepended_modules =~= Seq::empty());
        assert(r@.constants =~= Seq::empty());
        assert(r@.aliases =~= Seq::empty());
        assert(r@.accessors =~= Seq::empty());
        r
    }

    /// Creates the class under a value.
    /// This may be a class, a module, etc.
    pub fn under(self, parent: Value) -> (r: Self)
        ensures
            r@ == (ClassModel { parent: Some(parent), ..self@ }),
    {
        let mut s = self;
        s.parent = Some(parent);
        s
    }

    /// Sets the base class.
    pub fn extend(self, base_class: Value) -> (r: Self)
        ensures
            r@ == (ClassModel { base_class: Some(base_class), ..self@ }),
    {
        let mut s = self;
        s.base_class = Some(base_class);
        s
    }

    /// Includes a module.
    pub fn include_module(self, module: Value) -> (r: Self)
        ensures
            r@ == (ClassModel {
                included_modules: self@.included_modules.push(StepModel::Include { module }),
                ..self@
            }),
    {
        let mut s = self;
        push_step(&mut s.included_modules, Step::Include { module });
        s
    }

    /// Prepends a module.
    pub fn prepend(self, module: Value) -> (r: Self)
        ensures
            r@ == (ClassModel {
                prepended_modules: self@.prepended_modules.push(StepModel::Prepend { module }),
                ..self@
            }),
    {
        let mut s = self;
        push_step(&mut s.prepended_modules, Step::Prepend { module });
        s
    }

    /// Defines an instance method: the function at `func_addr`, taking
    /// `arg_count` arguments. The function's real signature must match the
    /// arity; nothing here can check that.
    pub fn method(self, name: &str, func_addr: usize, arg_count: i8) -> (r: Self)
        ensures
            r@ == (ClassModel {
                methods: self@.methods.push(
                    StepModel::DefineMethod { name: name@, func: func_addr, arity: arg_count as i32 },
                ),
                ..self@
            }),
    {
        let mut s = self;
        let step = Step::DefineMethod { name: name.to_owned(), func: func_addr, arity: arg_count as i32 };
        push_step(&mut s.methods, step);
        s
    }

    /// Defines a singleton method, callable on the class itself.
    pub fn singleton_method(self, name: &str, func_addr: usize, arg_count: i8) -> (r: Self)
        ensures
            r@ == (ClassModel {
                singleton_methods: self@.singleton_methods.push(
                    StepModel::DefineModuleFunction {
                        name: name@,
                        func: func_addr,
                        arity: arg_count as i32,
                    },
                ),
                ..self@
            }),
    {
        let mut s = self;
        let step = Step::DefineModuleFunction {
            name: name.to_owned(),
            func: func_addr,
            arity: arg_count as i32,
        };
        push_step(&mut s.singleton_methods, step);
        s
    }

    /// Defines a constant.
    pub fn constant(self, name: &str, value: Value) -> (r: Self)
        ensures
            r@ == (ClassModel {
                constants: self@.constants.push(StepModel::DefineConst { name: name@, value }),
                ..self@
            }),
    {
        let mut s = self;
        push_step(&mut s.constants, Step::DefineConst { name: name.to_owned(), value });
        s
    }

    /// Creates an alias method. The aliased method must be defined by the time
    /// the alias is registered; the runtime reports it otherwise.
    pub fn alias(self, new_name: &str, original_name: &str) -> (r: Self)
        ensures
            r@ == (ClassModel {
                aliases: self@.aliases.push(
                    StepModel::DefineAlias { new_name: new_name@, original_name: original_name@ },
                ),
                ..self@
            }),
    {
        let mut s = self;
        let step = Step::DefineAlias {
            new_name: new_name.to_owned(),
            original_name: original_name.to_owned(),
        };
        push_step(&mut s.aliases, step);
        s
    }

    /// Creates getter and setter methods for an ivar.
    pub fn attr_accessor(self, name: &str) -> (r: Self)
        ensures
            r@ == (ClassModel {
                accessors: self@.accessors.push(
                    StepModel::DefineAttr { name: name@, reader: true, writer: true },
                ),
                ..self@
            }),
    {
        self.define_accessor(name, true, true)
    }

    /// Creates a getter method for an ivar.
    pub fn attr_reader(self, name: &str) -> (r: Self)
        ensures
            r@ == (ClassModel {
                accessors: self@.accessors.push(
                    StepModel::DefineAttr { name: name@, reader: true, writer: false },
                ),
                ..self@
            }),
    {
        self.define_accessor(name, true, false)
    }

    /// Creates a setter method for an ivar.
    pub fn attr_writer(self, name: &str) -> (r: Self)
        ensures
            r@ == (ClassModel {
                accessors: self@.accessors.push(
                    StepModel::DefineAttr { name: name@, reader: false, writer: true },
                ),
                ..self@
            }),
    {
        self.define_accessor(name, false, true)
    }

    fn define_accessor(self, name: &str, reader: bool, writer: bool) -> (r: Self)
        ensures
            r@ == (ClassModel {
                accessors: self@.accessors.push(
                    StepModel::DefineAttr { name: name@, reader, writer },
                ),
                ..self@
            }),
    {
        let mut s = self;
        push_step(&mut s.accessors, Step::DefineAttr { name: name.to_owned(), reader, writer });
        s
    }

    /// Turns the description into its registration steps, consuming it.
    pub fn plan(self) -> (r: Vec<Step>)
        ensures
            steps(r@) == self@.plan(),
    {
        let ghost m = self@;
        let mut s = self;
        let mut r: Vec<Step> = Vec::new();
        let first = Step::DefineClass { name: s.name, parent: s.parent, superclass: s.base_class };
        push_step(&mut r, first);
        assert(steps(r@) =~= seq![
            StepModel::DefineClass { name: m.name, parent: m.parent, superclass: m.base_class },
        ]);
        append_steps(&mut r, &mut s.methods);
        append_steps(&mut r, &mut s.singleton_methods);
        append_steps(&mut r, &mut s.included_modules);
        append_steps(&mut r, &mut s.prepended_modules);
        append_steps(&mut r, &mut s.constants);
        append_steps(&mut r, &mut s.aliases);
        append_steps(&mut r, &mut s.accessors);
        r
    }
}

} // verus!
