//! The value facade: a copyable handle over a tagged word.
use vstd::prelude::*;

use crate::builder;
use crate::ffi::consts::active_tags;
use crate::ffi::ty::{self, spec_class_of, spec_kind, spec_type_p, ClassOf};
use crate::ffi::{consts, value_type, RBasic, VALUE};

verus! {

/// A runtime value: its tagged word, and the header it points to when the
/// word is not special (an empty header otherwise). The header is what heap
/// kinds are read from; it is never consulted for a special word.
#[derive(Clone, Copy, Debug)]
pub struct Value {
    pub word: VALUE,
    pub header: RBasic,
}

impl Value {
    /// The kind of this value.
    pub open spec fn spec_kind_of(self) -> value_type {
        spec_kind(self.word.0, self.header, active_tags())
    }

    /// Whether this value is of kind `ty`, as `RB_TYPE_P` answers it.
    pub open spec fn spec_is(self, ty: value_type) -> bool {
        spec_type_p(self.word.0, self.header, ty, active_tags())
    }

    /// A handle over a word the runtime handed out, with the header it points
    /// to (any header will do for a special word, which has none).
    pub fn from_raw(word: VALUE, header: RBasic) -> (r: Value)
        ensures
            r.word == word,
            r.header == header,
    {
        Value { word, header }
    }

    /// A handle over an immediate word, which has no header.
    fn immediate(w: usize) -> (r: Value)
        ensures
            r.word.0 == w,
            r.header == RBasic::empty_spec(),
    {
        Value { word: VALUE(w), header: RBasic::empty() }
    }

    /// Gets `nil`.
    pub fn nil() -> (r: Value)
        ensures
            r.word.0 == active_tags().qnil,
            r.header == RBasic::empty_spec(),
            r.spec_kind_of() == value_type::T_NIL,
    {
        let r = Value::immediate(consts::active().qnil);
        proof {
            ty::lemma_sentinels_classify(r.header, consts::spec_active_layout());
        }
        r
    }

    /// Gets a boolean value.
    pub fn boolean(b: bool) -> (r: Value)
        ensures
            r.word.0 == (if b { active_tags().qtrue } else { active_tags().qfalse }),
            r.header == RBasic::empty_spec(),
            r.spec_kind_of() == (if b { value_type::T_TRUE } else { value_type::T_FALSE }),
    {
        if b {
            Value::boolean_true()
        } else {
            Value::boolean_false()
        }
    }

    /// Gets the boolean `true` value.
    pub fn boolean_true() -> (r: Value)
        ensures
            r.word.0 == active_tags().qtrue,
            r.header == RBasic::empty_spec(),
            r.spec_kind_of() == value_type::T_TRUE,
    {
        let r = Value::immediate(consts::active().qtrue);
        proof {
            ty::lemma_sentinels_classify(r.header, consts::spec_active_layout());
        }
        r
    }

    /// Gets the boolean `false` value.
    pub fn boolean_false() -> (r: Value)
        ensures
            r.word.0 == active_tags().qfalse,
            r.header == RBasic::empty_spec(),
            r.spec_kind_of() == value_type::T_FALSE,
    {
        let r = Value::immediate(consts::active().qfalse);
        proof {
            ty::lemma_sentinels_classify(r.header, consts::spec_active_layout());
        }
        r
    }

    /// The kind of this value. It reads nothing but the handle, so asking
    /// again gives the same answer and changes nothing.
    pub fn kind_of(&self) -> (r: value_type)
        ensures
            r == self.spec_kind_of(),
    {
        ty::rb_type(self.word, &self.header)
    }

    /// Where the class of this value is found: a fixed well-known class for
    /// an immediate, or the header's class reference for a heap object.
    pub fn class_source(&self) -> (r: ClassOf)
        ensures
            r == spec_class_of(self.word.0, active_tags()),
    {
        ty::rb_class_of(self.word)
    }

    /// Starts a class nested under this value.
    pub fn nested_class(self, name: &str) -> (r: builder::Class)
        ensures
            r@ == builder::Class::spec_new(name@, Some(self)),
    {
        builder::Class::new_under(name, Some(self))
    }

    /// Starts a module nested under this value.
    pub fn nested_module(self, name: &str) -> (r: builder::Module)
        ensures
            r@ == builder::Module::spec_new(name@, Some(self)),
    {
        builder::Module::new_under(name, Some(self))
    }

    /// Checks if the value is `nil`.
    pub fn is_nil(&self) -> (r: bool)
        ensures
            r == (self.word.0 == active_tags().qnil),
    {
        ty::NIL_P(self.word)
    }

    /// Checks if the value is `true`.
    pub fn is_true(&self) -> (r: bool)
        ensures
            r == (self.word.0 == active_tags().qtrue),
    {
        self.word.0 == consts::active().qtrue
    }

    /// Checks if the value is `false`.
    pub fn is_false(&self) -> (r: bool)
        ensures
            r == (self.word.0 == active_tags().qfalse),
    {
        self.word.0 == consts::active().qfalse
    }

    /// Checks if the value is a `String`.
    pub fn is_string(&self) -> (r: bool)
        ensures
            r == self.spec_is(value_type::T_STRING),
    {
        ty::RB_TYPE_P(self.word, &self.header, value_type::T_STRING)
    }

    /// Checks if the value is a regular expression.
    pub fn is_regex(&self) -> (r: bool)
        ensures
            r == self.spec_is(value_type::T_REGEXP),
    {
        ty::RB_TYPE_P(self.word, &self.header, value_type::T_REGEXP)
    }

    /// Checks if the value is a fixed-size `Integer`.
    pub fn is_integer(&self) -> (r: bool)
        ensures
            r == self.spec_is(value_type::T_FIXNUM),
    {
        ty::RB_TYPE_P(self.word, &self.header, value_type::T_FIXNUM)
    }

    /// Checks if the value is a complex number.
    pub fn is_complex_number(&self) -> (r: bool)
        ensures
            r == self.spec_is(value_type::T_COMPLEX),
    {
        ty::RB_TYPE_P(self.word, &self.header, value_type::T_COMPLEX)
    }

    /// Checks if the value is a rational number.
    pub fn is_rational(&self) -> (r: bool)
        ensures
            r == self.spec_is(value_type::T_RATIONAL),
    {
        ty::RB_TYPE_P(self.word, &self.header, value_type::T_RATIONAL)
    }

    /// Checks if the value is a symbol.
    pub fn is_symbol(&self) -> (r: bool)
        ensures
            r == self.spec_is(value_type::T_SYMBOL),
    {
        ty::RB_TYPE_P(self.word, &self.header, value_type::T_SYMBOL)
    }

    /// Checks if the value is a float.
    pub fn is_float(&self) -> (r: bool)
        ensures
            r == self.spec_is(value_type::T_FLOAT),
    {
        ty::RB_TYPE_P(self.word, &self.header, value_type::T_FLOAT)
    }

    /// Checks if the value is an array.
    pub fn is_array(&self) -> (r: bool)
        ensures
            r == self.spec_is(value_type::T_ARRAY),
    {
        ty::RB_TYPE_P(self.word, &self.header, value_type::T_ARRAY)
    }

    /// Checks if the value is a hash.
    pub fn is_hash(&self) -> (r: bool)
        ensures
            r == self.spec_is(value_type::T_HASH),
    {
        ty::RB_TYPE_P(self.word, &self.header, value_type::T_HASH)
    }

    /// Checks if the value is a plain object.
    pub fn is_object(&self) -> (r: bool)
        ensures
            r == self.spec_is(value_type::T_OBJECT),
    {
        ty::RB_TYPE_P(self.word, &self.header, value_type::T_OBJECT)
    }

    /// Checks if the value is a class.
    pub fn is_class(&self) -> (r: bool)
        ensures
            r == self.spec_is(value_type::T_CLASS),
    {
        ty::RB_TYPE_P(self.word, &self.header, value_type::T_CLASS)
    }

    /// Checks if the value is a `Struct`.
    pub fn is_struct(&self) -> (r: bool)
        ensures
            r == self.spec_is(value_type::T_STRUCT),
    {
        ty::RB_TYPE_P(self.word, &self.header, value_type::T_STRUCT)
    }

    /// Checks if the value is a module.
    pub fn is_module(&self) -> (r: bool)
        ensures
            r == self.spec_is(value_type::T_MODULE),
    {
        ty::RB_TYPE_P(self.word, &self.header, value_type::T_MODULE)
    }
}

} // verus!
