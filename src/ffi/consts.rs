//! The two bit layouts of tagged words and their constant tables.
use vstd::prelude::*;

verus! {

/// How many low bits of a word hold the tag of a static symbol.
pub const SPECIAL_SHIFT: usize = 8;

pub const WIDE_QFALSE: usize = 0x00;
pub const WIDE_QTRUE: usize = 0x14;
pub const WIDE_QNIL: usize = 0x08;
pub const WIDE_QUNDEF: usize = 0x34;
pub const WIDE_IMMEDIATE_MASK: usize = 0x07;
pub const WIDE_FLONUM_MASK: usize = 0x03;
pub const WIDE_SYMBOL_FLAG: usize = 0x0c;

pub const NARROW_QFALSE: usize = 0x00;
pub const NARROW_QTRUE: usize = 0x02;
pub const NARROW_QNIL: usize = 0x04;
pub const NARROW_QUNDEF: usize = 0x06;
pub const NARROW_IMMEDIATE_MASK: usize = 0x03;
pub const NARROW_FLONUM_MASK: usize = 0x00;
pub const NARROW_SYMBOL_FLAG: usize = 0x0e;

pub const FIXNUM_FLAG: usize = 0x01;
pub const FLONUM_FLAG: usize = 0x02;

/// The bit layout of tagged words. `Wide` packs most floats into the word
/// itself (flonums); `Narrow` keeps every float on the heap.
#[derive(Clone, Copy, Debug, PartialEq, Eq, Structural)]
pub enum Layout {
    Wide,
    Narrow,
}

/// The constant table of one layout.
#[derive(Clone, Copy, Debug, PartialEq, Eq, Structural)]
pub struct Tags {
    pub qfalse: usize,
    pub qtrue: usize,
    pub qnil: usize,
    pub qundef: usize,
    pub immediate_mask: usize,
    pub fixnum_flag: usize,
    pub flonum_mask: usize,
    pub flonum_flag: usize,
    pub symbol_flag: usize,
}

/// The layout in effect: the wide one wherever a word can hold a double.
pub open spec fn spec_active_layout() -> Layout {
    if usize::BITS >= 64 {
        Layout::Wide
    } else {
        Layout::Narrow
    }
}

/// The constant table of a layout.
pub open spec fn tags_of(l: Layout) -> Tags {
    match l {
        Layout::Wide => Tags {
            qfalse: WIDE_QFALSE,
            qtrue: WIDE_QTRUE,
            qnil: WIDE_QNIL,
            qundef: WIDE_QUNDEF,
            immediate_mask: WIDE_IMMEDIATE_MASK,
            fixnum_flag: FIXNUM_FLAG,
            flonum_mask: WIDE_FLONUM_MASK,
            flonum_flag: FLONUM_FLAG,
            symbol_flag: WIDE_SYMBOL_FLAG,
        },
        Layout::Narrow => Tags {
            qfalse: NARROW_QFALSE,
            qtrue: NARROW_QTRUE,
            qnil: NARROW_QNIL,
            qundef: NARROW_QUNDEF,
            immediate_mask: NARROW_IMMEDIATE_MASK,
            fixnum_flag: FIXNUM_FLAG,
            flonum_mask: NARROW_FLONUM_MASK,
            flonum_flag: FLONUM_FLAG,
            symbol_flag: NARROW_SYMBOL_FLAG,
        },
    }
}

/// The constant table in effect for this process.
pub open spec fn active_tags() -> Tags {
    tags_of(spec_active_layout())
}

impl Layout {
    /// The layout in effect for this process, fixed when the crate is built.
    pub fn active() -> (r: Layout)
        ensures
            r == spec_active_layout(),
    {
        if usize::BITS >= 64 {
            Layout::Wide
        } else {
            Layout::Narrow
        }
    }

    /// The constant table of this layout.
    pub fn tags(self) -> (r: Tags)
        ensures
            r == tags_of(self),
    {
        match self {
            Layout::Wide => Tags {
                qfalse: WIDE_QFALSE,
                qtrue: WIDE_QTRUE,
                qnil: WIDE_QNIL,
                qundef: WIDE_QUNDEF,
                immediate_mask: WIDE_IMMEDIATE_MASK,
                fixnum_flag: FIXNUM_FLAG,
                flonum_mask: WIDE_FLONUM_MASK,
                flonum_flag: FLONUM_FLAG,
                symbol_flag: WIDE_SYMBOL_FLAG,
            },
            Layout::Narrow => Tags {
                qfalse: NARROW_QFALSE,
                qtrue: NARROW_QTRUE,
                qnil: NARROW_QNIL,
                qundef: NARROW_QUNDEF,
                immediate_mask: NARROW_IMMEDIATE_MASK,
                fixnum_flag: FIXNUM_FLAG,
                flonum_mask: NARROW_FLONUM_MASK,
                flonum_flag: FLONUM_FLAG,
                symbol_flag: NARROW_SYMBOL_FLAG,
            },
        }
    }
}

/// The constant table in effect for this process.
pub fn active() -> (r: Tags)
    ensures
        r == active_tags(),
{
    Layout::active().tags()
}

} // verus!
