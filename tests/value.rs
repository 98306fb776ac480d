use rurust::ffi::consts::{self, Layout};
use rurust::ffi::ty::{self, ClassOf};
use rurust::ffi::{value_type, RBasic, VALUE};
use rurust::Value;

fn heap(word: usize, flags: usize, klass: usize) -> Value {
    Value::from_raw(VALUE(word), RBasic { flags: VALUE(flags), klass: VALUE(klass) })
}

fn word(w: usize) -> Value {
    Value::from_raw(VALUE(w), RBasic::empty())
}

#[test]
fn can_create_booleans() {
    assert!(Value::boolean_true().is_true());
    assert!(Value::boolean_false().is_false());
    assert!(Value::boolean(true).is_true());
    assert!(Value::boolean(false).is_false());
}

#[test]
fn sentinels_answer_only_their_own_predicate() {
    for _ in 0..2 {
        let n = Value::nil();
        assert!(n.is_nil() && !n.is_true() && !n.is_false());
        let t = Value::boolean_true();
        assert!(!t.is_nil() && t.is_true() && !t.is_false());
        let f = Value::boolean_false();
        assert!(!f.is_nil() && !f.is_true() && f.is_false());
    }
    assert_eq!(Value::nil().kind_of(), value_type::T_NIL);
    assert_eq!(Value::boolean(true).kind_of(), value_type::T_TRUE);
    assert_eq!(Value::boolean(false).kind_of(), value_type::T_FALSE);
}

#[test]
fn wide_layout_is_active_on_64_bit_words() {
    assert_eq!(Layout::active(), Layout::Wide);
    let t = consts::active();
    assert_eq!(t.qnil, 0x08);
    assert_eq!(t.qtrue, 0x14);
    assert_eq!(t.qfalse, 0x00);
    assert_eq!(t.qundef, 0x34);
    assert_eq!(Value::nil().word, VALUE(0x08));
    assert_eq!(Value::boolean(true).word, VALUE(0x14));
}

#[test]
fn narrow_layout_table() {
    let t = Layout::Narrow.tags();
    assert_eq!(t.qnil, 0x04);
    assert_eq!(t.qtrue, 0x02);
    assert_eq!(t.qundef, 0x06);
    assert_eq!(t.immediate_mask, 0x03);
    assert_eq!(t.flonum_mask, 0x00);
    assert_eq!(t.symbol_flag, 0x0e);
}

#[test]
fn truthiness() {
    assert!(!ty::RTEST(VALUE(0x08)));
    assert!(!ty::RTEST(VALUE(0x00)));
    assert!(ty::RTEST(VALUE(0x14)));
    assert!(ty::RTEST(VALUE(0x1000)));
    assert!(ty::NIL_P(VALUE(0x08)));
    assert!(!ty::NIL_P(VALUE(0x00)));
}

#[test]
fn special_words() {
    assert!(ty::SPECIAL_CONST_P(VALUE(0x08)));
    assert!(ty::SPECIAL_CONST_P(VALUE(0x00)));
    assert!(ty::SPECIAL_CONST_P(VALUE(0x05)));
    assert!(ty::IMMEDIATE_P(VALUE(0x05)));
    assert!(!ty::IMMEDIATE_P(VALUE(0x08)));
    assert!(!ty::SPECIAL_CONST_P(VALUE(0x1000)));
}

#[test]
fn fixnum_words() {
    let two = word(0x05);
    assert!(ty::FIXNUM_P(VALUE(0x05)));
    assert!(two.is_integer());
    assert_eq!(two.kind_of(), value_type::T_FIXNUM);
    assert_eq!(two.class_source(), ClassOf::Integer);
    assert!(!two.is_float() && !two.is_string());
}

#[test]
fn flonum_words() {
    let f = word(0x8000_0002);
    assert!(ty::FLONUM_P(VALUE(0x8000_0002)));
    assert!(f.is_float());
    assert_eq!(f.kind_of(), value_type::T_FLOAT);
    assert_eq!(f.class_source(), ClassOf::Float);
}

#[test]
fn static_symbol_words() {
    let s = word(0x4d0c);
    assert!(ty::STATIC_SYM_P(VALUE(0x4d0c)));
    assert!(s.is_symbol());
    assert_eq!(s.kind_of(), value_type::T_SYMBOL);
    assert_eq!(s.class_source(), ClassOf::Symbol);
}

#[test]
fn undef_word_has_no_class() {
    let u = word(0x34);
    assert_eq!(u.kind_of(), value_type::T_UNDEF);
    assert_eq!(u.class_source(), ClassOf::Unknown);
    assert_eq!(word(0x24).kind_of(), value_type::T_NONE);
}

#[test]
fn heap_kinds_come_from_the_header() {
    let s = heap(0x7f00_1000, 0x2005, 0x7f00_2000);
    assert!(s.is_string());
    assert!(!s.is_array());
    assert_eq!(s.kind_of(), value_type::T_STRING);
    assert_eq!(s.class_source(), ClassOf::Header);
    assert_eq!(s.header.klass, VALUE(0x7f00_2000));
    assert!(heap(0x1000, 0x07, 0).is_array());
    assert!(heap(0x1000, 0x08, 0).is_hash());
    assert!(heap(0x1000, 0x01, 0).is_object());
    assert!(heap(0x1000, 0x02, 0).is_class());
    assert!(heap(0x1000, 0x03, 0).is_module());
    assert!(heap(0x1000, 0x09, 0).is_struct());
    assert!(heap(0x1000, 0x06, 0).is_regex());
    assert!(heap(0x1000, 0x0e, 0).is_complex_number());
    assert!(heap(0x1000, 0x0f, 0).is_rational());
    assert!(heap(0x1000, 0x04, 0).is_float());
    assert!(heap(0x1000, 0x14, 0).is_symbol());
    assert!(ty::DYNAMIC_SYM_P(VALUE(0x1000), &RBasic { flags: VALUE(0x14), klass: VALUE(0) }));
}

#[test]
fn header_of_special_word_is_ignored() {
    let v = heap(0x05, 0x05, 0);
    assert!(!v.is_string());
    assert_eq!(v.kind_of(), value_type::T_FIXNUM);
    let n = heap(0x08, 0x07, 0);
    assert!(!n.is_array());
    assert_eq!(n.kind_of(), value_type::T_NIL);
}

#[test]
fn corrupted_headers_classify_as_unknown() {
    assert_eq!(heap(0x1000, 0x10, 0).kind_of(), value_type::T_NONE);
    assert_eq!(heap(0x1000, 0x15, 0).kind_of(), value_type::T_NONE);
    assert_eq!(heap(0x1000, 0x11, 0).kind_of(), value_type::T_NONE);
    assert_eq!(ty::BUILTIN_TYPE(&RBasic { flags: VALUE(0x1a), klass: VALUE(0) }), value_type::T_NONE);
}

#[test]
fn kind_of_is_repeatable() {
    let v = heap(0x1000, 0x05, 0x2000);
    let a = v.kind_of();
    let b = v.kind_of();
    assert_eq!(a, b);
    assert_eq!(v.word, VALUE(0x1000));
    assert_eq!(v.header.flags, VALUE(0x05));
}

#[test]
fn type_predicate_agrees_with_kind() {
    let samples = [
        heap(0x1000, 0x05, 0),
        heap(0x1000, 0x14, 0),
        heap(0x1000, 0x04, 0),
        word(0x05),
        word(0x08),
        word(0x14),
        word(0x00),
        word(0x34),
        word(0x4d0c),
        word(0x8000_0002),
    ];
    let kinds = [
        value_type::T_STRING,
        value_type::T_SYMBOL,
        value_type::T_FLOAT,
        value_type::T_FIXNUM,
        value_type::T_NIL,
        value_type::T_TRUE,
        value_type::T_FALSE,
        value_type::T_UNDEF,
        value_type::T_ARRAY,
    ];
    for v in samples.iter() {
        for k in kinds.iter() {
            assert_eq!(ty::RB_TYPE_P(v.word, &v.header, *k), v.kind_of() == *k);
        }
    }
}

#[test]
fn kind_codes_round_trip() {
    assert_eq!(value_type::T_STRING.code(), 0x05);
    assert_eq!(value_type::T_FIXNUM.code(), 0x15);
    assert_eq!(value_type::from_code(0x1b), value_type::T_UNDEF);
    assert_eq!(value_type::from_code(0x16), value_type::T_NONE);
    for k in [value_type::T_OBJECT, value_type::T_MASK, value_type::T_ZOMBIE, value_type::T_NONE] {
        assert_eq!(value_type::from_code(k.code() as usize), k);
    }
}
