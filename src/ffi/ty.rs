//! Classification of tagged words. Immediate kinds are told by the word's
//! bits alone; a heap kind is read from the object header, and only where the
//! word is not special (reading a header through an immediate is undefined).
#![allow(non_snake_case)]
use vstd::prelude::*;

use super::consts::{self, active_tags, spec_active_layout, tags_of, Layout, Tags};
use super::vt::{spec_from_code, value_type, T_MASK_BITS};
use super::{RBasic, VALUE};

verus! {

/// Mask that keeps the tag bits of a static symbol (the bits below
/// `SPECIAL_SHIFT`).
pub const STATIC_SYM_MASK: usize = 0xff;

pub open spec fn spec_rtest(w: usize, t: Tags) -> bool {
    w & !t.qnil != 0
}

pub open spec fn spec_immediate(w: usize, t: Tags) -> bool {
    w & t.immediate_mask != 0
}

pub open spec fn spec_special_const(w: usize, t: Tags) -> bool {
    spec_immediate(w, t) || !spec_rtest(w, t)
}

pub open spec fn spec_fixnum(w: usize, t: Tags) -> bool {
    w & t.fixnum_flag != 0
}

pub open spec fn spec_flonum(w: usize, t: Tags) -> bool {
    w & t.flonum_mask == t.flonum_flag
}

pub open spec fn spec_static_sym(w: usize, t: Tags) -> bool {
    w & STATIC_SYM_MASK == t.symbol_flag
}

/// The kind that a header's flags name, where that kind can live on the heap;
/// `T_NONE` where the flags name an immediate-only kind or no kind at all.
pub open spec fn spec_heap_kind(b: RBasic) -> value_type {
    let k = spec_from_code(b.flags.0 & T_MASK_BITS);
    match k {
        value_type::T_NIL | value_type::T_TRUE | value_type::T_FALSE
        | value_type::T_FIXNUM | value_type::T_UNDEF => value_type::T_NONE,
        _ => k,
    }
}

/// The kind of a word, with `b` the header it points to when it is not special.
pub open spec fn spec_kind(w: usize, b: RBasic, t: Tags) -> value_type {
    if spec_immediate(w, t) {
        if spec_fixnum(w, t) {
            value_type::T_FIXNUM
        } else if spec_flonum(w, t) {
            value_type::T_FLOAT
        } else if w == t.qtrue {
            value_type::T_TRUE
        } else if spec_static_sym(w, t) {
            value_type::T_SYMBOL
        } else if w == t.qundef {
            value_type::T_UNDEF
        } else {
            value_type::T_NONE
        }
    } else if !spec_rtest(w, t) {
        if w == t.qnil {
            value_type::T_NIL
        } else {
            value_type::T_FALSE
        }
    } else {
        spec_heap_kind(b)
    }
}

/// What `RB_TYPE_P` answers.
pub open spec fn spec_type_p(w: usize, b: RBasic, ty: value_type, t: Tags) -> bool {
    match ty {
        value_type::T_FIXNUM => spec_fixnum(w, t),
        value_type::T_TRUE => w == t.qtrue,
        value_type::T_FALSE => w == t.qfalse,
        value_type::T_NIL => w == t.qnil,
        value_type::T_UNDEF => w == t.qundef,
        value_type::T_SYMBOL => spec_static_sym(w, t) || (!spec_special_const(w, t)
            && spec_from_code(b.flags.0 & T_MASK_BITS) == value_type::T_SYMBOL),
        value_type::T_FLOAT => spec_flonum(w, t) || (!spec_special_const(w, t)
            && spec_from_code(b.flags.0 & T_MASK_BITS) == value_type::T_FLOAT),
        _ => !spec_special_const(w, t) && spec_from_code(b.flags.0 & T_MASK_BITS) == ty,
    }
}

/// Where the class of a word comes from: a fixed well-known class for the
/// immediate kinds, or the class reference in the object header.
#[derive(Clone, Copy, Debug, PartialEq, Eq, Structural)]
pub enum ClassOf {
    Integer,
    Float,
    TrueClass,
    Symbol,
    NilClass,
    FalseClass,
    /// An immediate that belongs to no class (such as the undefined marker).
    Unknown,
    /// A heap object: its class is the header's class reference.
    Header,
}

pub open spec fn spec_class_of(w: usize, t: Tags) -> ClassOf {
    if spec_immediate(w, t) {
        if spec_fixnum(w, t) {
            ClassOf::Integer
        } else if spec_flonum(w, t) {
            ClassOf::Float
        } else if w == t.qtrue {
            ClassOf::TrueClass
        } else if spec_static_sym(w, t) {
            ClassOf::Symbol
        } else {
            ClassOf::Unknown
        }
    } else if !spec_rtest(w, t) {
        if w == t.qnil {
            ClassOf::NilClass
        } else {
            ClassOf::FalseClass
        }
    } else {
        ClassOf::Header
    }
}

/// Whether a word is truthy: neither `nil` nor `false`.
pub fn RTEST(v: VALUE) -> (r: bool)
    ensures
        r == spec_rtest(v.0, active_tags()),
{
    let t = consts::active();
    v.0 & !t.qnil != 0
}

pub fn NIL_P(v: VALUE) -> (r: bool)
    ensures
        r == (v.0 == active_tags().qnil),
{
    v.0 == consts::active().qnil
}

/// Whether the word carries an immediate tag.
pub fn IMMEDIATE_P(x: VALUE) -> (r: bool)
    ensures
        r == spec_immediate(x.0, active_tags()),
{
    x.0 & consts::active().immediate_mask != 0
}

/// Whether the word is not a heap reference: immediate, `nil` or `false`.
pub fn SPECIAL_CONST_P(x: VALUE) -> (r: bool)
    ensures
        r == spec_special_const(x.0, active_tags()),
{
    IMMEDIATE_P(x) || !RTEST(x)
}

pub fn FIXNUM_P(f: VALUE) -> (r: bool)
    ensures
        r == spec_fixnum(f.0, active_tags()),
{
    f.0 & consts::active().fixnum_flag != 0
}

/// Whether the word is a float packed into the word. Never so in the
/// narrow layout, whose float mask is zero.
pub fn FLONUM_P(x: VALUE) -> (r: bool)
    ensures
        r == spec_flonum(x.0, active_tags()),
        spec_active_layout() == Layout::Narrow ==> !r,
{
    let t = consts::active();
    proof {
        let w = x.0;
        assert(w & 0 != 2usize) by (bit_vector);
    }
    x.0 & t.flonum_mask == t.flonum_flag
}

pub fn STATIC_SYM_P(x: VALUE) -> (r: bool)
    ensures
        r == spec_static_sym(x.0, active_tags()),
{
    x.0 & STATIC_SYM_MASK == consts::active().symbol_flag
}

/// The kind that a header's flags name, masked by the kind field's width.
pub fn BUILTIN_TYPE(x: &RBasic) -> (r: value_type)
    ensures
        r == spec_from_code(x.flags.0 & T_MASK_BITS),
{
    value_type::from_code(x.flags.0 & T_MASK_BITS)
}

/// Whether the word is a symbol that lives on the heap; `x` points to `basic`
/// when it is not special.
pub fn DYNAMIC_SYM_P(x: VALUE, basic: &RBasic) -> (r: bool)
    ensures
        r == (!spec_special_const(x.0, active_tags()) && spec_from_code(basic.flags.0
            & T_MASK_BITS) == value_type::T_SYMBOL),
{
    !SPECIAL_CONST_P(x) && BUILTIN_TYPE(basic) == value_type::T_SYMBOL
}

pub fn SYMBOL_P(x: VALUE, basic: &RBasic) -> (r: bool)
    ensures
        r == spec_type_p(x.0, *basic, value_type::T_SYMBOL, active_tags()),
{
    STATIC_SYM_P(x) || DYNAMIC_SYM_P(x, basic)
}

pub fn RB_FLOAT_TYPE_P(obj: VALUE, basic: &RBasic) -> (r: bool)
    ensures
        r == spec_type_p(obj.0, *basic, value_type::T_FLOAT, active_tags()),
{
    FLONUM_P(obj) || (!SPECIAL_CONST_P(obj) && BUILTIN_TYPE(basic) == value_type::T_FLOAT)
}

/// Whether the word is of kind `ty`; `obj` points to `basic` when it is not
/// special. The header is consulted only for a word that is not special.
pub fn RB_TYPE_P(obj: VALUE, basic: &RBasic, ty: value_type) -> (r: bool)
    ensures
        r == spec_type_p(obj.0, *basic, ty, active_tags()),
{
    let t = consts::active();
    match ty {
        value_type::T_FIXNUM => FIXNUM_P(obj),
        value_type::T_TRUE => obj.0 == t.qtrue,
        value_type::T_FALSE => obj.0 == t.qfalse,
        value_type::T_NIL => obj.0 == t.qnil,
        value_type::T_UNDEF => obj.0 == t.qundef,
        value_type::T_SYMBOL => SYMBOL_P(obj, basic),
        value_type::T_FLOAT => RB_FLOAT_TYPE_P(obj, basic),
        _ => !SPECIAL_CONST_P(obj) && BUILTIN_TYPE(basic) == ty,
    }
}

/// The kind of a word; `obj` points to `basic` when it is not special, and
/// `basic` is ignored otherwise.
pub fn rb_type(obj: VALUE, basic: &RBasic) -> (r: value_type)
    ensures
        r == spec_kind(obj.0, *basic, active_tags()),
{
    let t = consts::active();
    if IMMEDIATE_P(obj) {
        if FIXNUM_P(obj) {
            value_type::T_FIXNUM
        } else if FLONUM_P(obj) {
            value_type::T_FLOAT
        } else if obj.0 == t.qtrue {
            value_type::T_TRUE
        } else if STATIC_SYM_P(obj) {
            value_type::T_SYMBOL
        } else if obj.0 == t.qundef {
            value_type::T_UNDEF
        } else {
            value_type::T_NONE
        }
    } else if !RTEST(obj) {
        if obj.0 == t.qnil {
            value_type::T_NIL
        } else {
            value_type::T_FALSE
        }
    } else {
        match BUILTIN_TYPE(basic) {
            value_type::T_NIL | value_type::T_TRUE | value_type::T_FALSE
            | value_type::T_FIXNUM | value_type::T_UNDEF => value_type::T_NONE,
            k => k,
        }
    }
}

/// Where the class of a word is found. The immediate kinds are checked first,
/// so `Header` comes back exactly for the words that are not special.
pub fn rb_class_of(obj: VALUE) -> (r: ClassOf)
    ensures
        r == spec_class_of(obj.0, active_tags()),
        (r == ClassOf::Header) == !spec_special_const(obj.0, active_tags()),
{
    let t = consts::active();
    if IMMEDIATE_P(obj) {
        if FIXNUM_P(obj) {
            ClassOf::Integer
        } else if FLONUM_P(obj) {
            ClassOf::Float
        } else if obj.0 == t.qtrue {
            ClassOf::TrueClass
        } else if STATIC_SYM_P(obj) {
            ClassOf::Symbol
        } else {
            ClassOf::Unknown
        }
    } else if !RTEST(obj) {
        if obj.0 == t.qnil {
            ClassOf::NilClass
        } else {
            ClassOf::FalseClass
        }
    } else {
        ClassOf::Header
    }
}

/// The tag facts that classification rests on, for the constant table of a
/// layout: each immediate tag implies the ones checked before it are absent.
proof fn lemma_tag_bits(w: usize, l: Layout)
    ensures
        ({
            let t = tags_of(l);
            &&& spec_fixnum(w, t) ==> spec_immediate(w, t)
            &&& spec_flonum(w, t) ==> spec_immediate(w, t) && !spec_fixnum(w, t)
            &&& spec_static_sym(w, t) ==> spec_immediate(w, t) && !spec_fixnum(w, t)
                && !spec_flonum(w, t) && w != t.qtrue && w != t.qundef
            &&& w == t.qtrue ==> spec_immediate(w, t) && !spec_fixnum(w, t) && !spec_flonum(w, t)
            &&& w == t.qundef ==> spec_immediate(w, t) && !spec_fixnum(w, t) && !spec_flonum(w, t)
                && w != t.qtrue
            &&& !spec_immediate(w, t) && !spec_rtest(w, t) ==> w == t.qnil || w == t.qfalse
            &&& w == t.qnil ==> !spec_immediate(w, t) && !spec_rtest(w, t) && w != t.qfalse
            &&& w == t.qfalse ==> !spec_immediate(w, t) && !spec_rtest(w, t)
        }),
{
    match l {
        Layout::Wide => {
            assert(w & 1 != 0 ==> w & 7 != 0) by (bit_vector);
            assert(w & 3 == 2 ==> w & 7 != 0 && w & 1 == 0) by (bit_vector);
            assert(w & 0xff == 0x0c ==> w & 7 != 0 && w & 1 == 0 && w & 3 != 2 && w != 0x14
                && w != 0x34) by (bit_vector);
            assert(w == 0x14 ==> w & 7 != 0 && w & 1 == 0 && w & 3 != 2) by (bit_vector);
            assert(w == 0x34 ==> w & 7 != 0 && w & 1 == 0 && w & 3 != 2) by (bit_vector);
            assert(w & 7 == 0 && w & !8usize == 0 ==> w == 8 || w == 0) by (bit_vector);
            assert(w == 8 ==> w & 7 == 0 && w & !8usize == 0) by (bit_vector);
            assert(w == 0 ==> w & 7 == 0 && w & !8usize == 0) by (bit_vector);
        },
        Layout::Narrow => {
            assert(w & 1 != 0 ==> w & 3 != 0) by (bit_vector);
            assert(w & 0 != 2) by (bit_vector);
            assert(w & 0xff == 0x0e ==> w & 3 != 0 && w & 1 == 0 && w != 0x02 && w != 0x06)
                by (bit_vector);
            assert(w == 0x02 ==> w & 3 != 0 && w & 1 == 0) by (bit_vector);
            assert(w == 0x06 ==> w & 3 != 0 && w & 1 == 0) by (bit_vector);
            assert(w & 3 == 0 && w & !4usize == 0 ==> w == 4 || w == 0) by (bit_vector);
            assert(w == 4 ==> w & 3 == 0 && w & !4usize == 0) by (bit_vector);
            assert(w == 0 ==> w & 3 == 0 && w & !4usize == 0) by (bit_vector);
        },
    }
}

/// The kind predicate and the kind query agree: a word satisfies
/// `RB_TYPE_P` for a kind exactly when classifying it yields that kind,
/// for every kind but `T_NONE`, and in either layout.
pub proof fn lemma_type_p_agrees_with_kind(w: usize, b: RBasic, ty: value_type, l: Layout)
    requires
        ty != value_type::T_NONE,
    ensures
        spec_type_p(w, b, ty, tags_of(l)) == (spec_kind(w, b, tags_of(l)) == ty),
{
    lemma_tag_bits(w, l);
}

/// Classifying a word consults its header only where the word is not
/// special: two headers give the same kind for a special word.
pub proof fn lemma_kind_ignores_header_of_special(w: usize, b1: RBasic, b2: RBasic, l: Layout)
    requires
        spec_special_const(w, tags_of(l)),
    ensures
        spec_kind(w, b1, tags_of(l)) == spec_kind(w, b2, tags_of(l)),
{
}

/// The sentinels classify as themselves in either layout: `nil` is of kind
/// `T_NIL`, satisfies the `nil` predicate and neither the `true` nor the
/// `false` one, and likewise for the other two.
pub proof fn lemma_sentinels_classify(b: RBasic, l: Layout)
    ensures
        ({
            let t = tags_of(l);
            &&& spec_kind(t.qnil, b, t) == value_type::T_NIL
            &&& spec_kind(t.qtrue, b, t) == value_type::T_TRUE
            &&& spec_kind(t.qfalse, b, t) == value_type::T_FALSE
            &&& t.qnil != t.qtrue && t.qnil != t.qfalse && t.qtrue != t.qfalse
            &&& spec_class_of(t.qnil, t) == ClassOf::NilClass
            &&& spec_class_of(t.qtrue, t) == ClassOf::TrueClass
            &&& spec_class_of(t.qfalse, t) == ClassOf::FalseClass
            &&& spec_type_p(t.qnil, b, value_type::T_NIL, t)
            &&& !spec_type_p(t.qnil, b, value_type::T_TRUE, t)
            &&& !spec_type_p(t.qnil, b, value_type::T_FALSE, t)
            &&& spec_type_p(t.qtrue, b, value_type::T_TRUE, t)
            &&& !spec_type_p(t.qtrue, b, value_type::T_NIL, t)
            &&& !spec_type_p(t.qtrue, b, value_type::T_FALSE, t)
            &&& spec_type_p(t.qfalse, b, value_type::T_FALSE, t)
            &&& !spec_type_p(t.qfalse, b, value_type::T_NIL, t)
            &&& !spec_type_p(t.qfalse, b, value_type::T_TRUE, t)
        }),
{
    let t = tags_of(l);
    lemma_tag_bits(t.qnil, l);
    lemma_tag_bits(t.qtrue, l);
    lemma_tag_bits(t.qfalse, l);
}

} // verus!
