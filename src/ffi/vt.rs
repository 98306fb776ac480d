//! Kinds of runtime values, numbered as in the object header's flags.
use vstd::prelude::*;

verus! {

/// Width mask of the kind field in an object header's flags.
pub const T_MASK_BITS: usize = 0x1f;

/// The kind of a runtime value. Heap kinds are read from the object header;
/// the others are told by the word's own bits. `T_NONE` also stands for a
/// word or header that matches no known kind.
#[allow(non_camel_case_types)]
#[derive(Clone, Copy, Debug, PartialEq, Eq, Structural)]
pub enum value_type {
    T_NONE,
    T_OBJECT,
    T_CLASS,
    T_MODULE,
    T_FLOAT,
    T_STRING,
    T_REGEXP,
    T_ARRAY,
    T_HASH,
    T_STRUCT,
    T_BIGNUM,
    T_FILE,
    T_DATA,
    T_MATCH,
    T_COMPLEX,
    T_RATIONAL,
    T_NIL,
    T_TRUE,
    T_FALSE,
    T_SYMBOL,
    T_FIXNUM,
    T_UNDEF,
    T_NODE,
    T_ICLASS,
    T_ZOMBIE,
    T_MASK,
}

/// The number that stands for a kind in a header's flags.
pub open spec fn spec_code(t: value_type) -> u8 {
    match t {
        value_type::T_NONE => 0x00,
        value_type::T_OBJECT => 0x01,
        value_type::T_CLASS => 0x02,
        value_type::T_MODULE => 0x03,
        value_type::T_FLOAT => 0x04,
        value_type::T_STRING => 0x05,
        value_type::T_REGEXP => 0x06,
        value_type::T_ARRAY => 0x07,
        value_type::T_HASH => 0x08,
        value_type::T_STRUCT => 0x09,
        value_type::T_BIGNUM => 0x0a,
        value_type::T_FILE => 0x0b,
        value_type::T_DATA => 0x0c,
        value_type::T_MATCH => 0x0d,
        value_type::T_COMPLEX => 0x0e,
        value_type::T_RATIONAL => 0x0f,
        value_type::T_NIL => 0x11,
        value_type::T_TRUE => 0x12,
        value_type::T_FALSE => 0x13,
        value_type::T_SYMBOL => 0x14,
        value_type::T_FIXNUM => 0x15,
        value_type::T_UNDEF => 0x1b,
        value_type::T_NODE => 0x1c,
        value_type::T_ICLASS => 0x1d,
        value_type::T_ZOMBIE => 0x1e,
        value_type::T_MASK => 0x1f,
    }
}

/// The kind that a masked flags field names; `T_NONE` for numbers no kind uses.
pub open spec fn spec_from_code(c: usize) -> value_type {
    if c == 0x01 {
        value_type::T_OBJECT
    } else if c == 0x02 {
        value_type::T_CLASS
    } else if c == 0x03 {
        value_type::T_MODULE
    } else if c == 0x04 {
        value_type::T_FLOAT
    } else if c == 0x05 {
        value_type::T_STRING
    } else if c == 0x06 {
        value_type::T_REGEXP
    } else if c == 0x07 {
        value_type::T_ARRAY
    } else if c == 0x08 {
        value_type::T_HASH
    } else if c == 0x09 {
        value_type::T_STRUCT
    } else if c == 0x0a {
        value_type::T_BIGNUM
    } else if c == 0x0b {
        value_type::T_FILE
    } else if c == 0x0c {
        value_type::T_DATA
    } else if c == 0x0d {
        value_type::T_MATCH
    } else if c == 0x0e {
        value_type::T_COMPLEX
    } else if c == 0x0f {
        value_type::T_RATIONAL
    } else if c == 0x11 {
        value_type::T_NIL
    } else if c == 0x12 {
        value_type::T_TRUE
    } else if c == 0x13 {
        value_type::T_FALSE
    } else if c == 0x14 {
        value_type::T_SYMBOL
    } else if c == 0x15 {
        value_type::T_FIXNUM
    } else if c == 0x1b {
        value_type::T_UNDEF
    } else if c == 0x1c {
        value_type::T_NODE
    } else if c == 0x1d {
        value_type::T_ICLASS
    } else if c == 0x1e {
        value_type::T_ZOMBIE
    } else if c == 0x1f {
        value_type::T_MASK
    } else {
        value_type::T_NONE
    }
}

impl value_type {
    /// The number that stands for this kind in a header's flags.
    pub fn code(self) -> (r: u8)
        ensures
            r == spec_code(self),
    {
        match self {
            value_type::T_NONE => 0x00,
            value_type::T_OBJECT => 0x01,
            value_type::T_CLASS => 0x02,
            value_type::T_MODULE => 0x03,
            value_type::T_FLOAT => 0x04,
            value_type::T_STRING => 0x05,
            value_type::T_REGEXP => 0x06,
            value_type::T_ARRAY => 0x07,
            value_type::T_HASH => 0x08,
            value_type::T_STRUCT => 0x09,
            value_type::T_BIGNUM => 0x0a,
            value_type::T_FILE => 0x0b,
            value_type::T_DATA => 0x0c,
            value_type::T_MATCH => 0x0d,
            value_type::T_COMPLEX => 0x0e,
            value_type::T_RATIONAL => 0x0f,
            value_type::T_NIL => 0x11,
            value_type::T_TRUE => 0x12,
            value_type::T_FALSE => 0x13,
            value_type::T_SYMBOL => 0x14,
            value_type::T_FIXNUM => 0x15,
            value_type::T_UNDEF => 0x1b,
            value_type::T_NODE => 0x1c,
            value_type::T_ICLASS => 0x1d,
            value_type::T_ZOMBIE => 0x1e,
            value_type::T_MASK => 0x1f,
        }
    }

    /// The kind that a masked flags field names; `T_NONE` for numbers that
    /// no kind uses.
    pub fn from_code(c: usize) -> (r: value_type)
        ensures
            r == spec_from_code(c),
    {
        match c {
            0x01 => value_type::T_OBJECT,
            0x02 => value_type::T_CLASS,
            0x03 => value_type::T_MODULE,
            0x04 => value_type::T_FLOAT,
            0x05 => value_type::T_STRING,
            0x06 => value_type::T_REGEXP,
            0x07 => value_type::T_ARRAY,
            0x08 => value_type::T_HASH,
            0x09 => value_type::T_STRUCT,
            0x0a => value_type::T_BIGNUM,
            0x0b => value_type::T_FILE,
            0x0c => value_type::T_DATA,
            0x0d => value_type::T_MATCH,
            0x0e => value_type::T_COMPLEX,
            0x0f => value_type::T_RATIONAL,
            0x11 => value_type::T_NIL,
            0x12 => value_type::T_TRUE,
            0x13 => value_type::T_FALSE,
            0x14 => value_type::T_SYMBOL,
            0x15 => value_type::T_FIXNUM,
            0x1b => value_type::T_UNDEF,
            0x1c => value_type::T_NODE,
            0x1d => value_type::T_ICLASS,
            0x1e => value_type::T_ZOMBIE,
            0x1f => value_type::T_MASK,
            _ => value_type::T_NONE,
        }
    }
}

/// Reading a kind back from its number gives the kind again.
pub proof fn lemma_code_round_trip(t: value_type)
    ensures
        spec_from_code(spec_code(t) as usize) == t,
{
}

} // verus!
