//! The runtime's value representation: tagged words, object headers and the
//! classification of a word into a kind.
use vstd::prelude::*;

pub mod consts;
pub mod ty;
pub mod vt;

pub use self::consts::{Layout, Tags, SPECIAL_SHIFT};
pub use self::vt::value_type;

verus! {

/// The kind enumeration under its C name.
#[allow(non_camel_case_types)]
pub type ruby_value_type = value_type;

/// A tagged machine word as the runtime hands it out: either an immediate
/// value or the address of an object header.
#[allow(non_camel_case_types)]
#[derive(Clone, Copy, Debug, PartialEq, Eq, Structural)]
pub struct VALUE(pub usize);

/// The two-word header that starts every heap object: its flags, whose low
/// bits hold the object's kind, and a reference to its class.
#[derive(Clone, Copy, Debug, PartialEq, Eq, Structural)]
pub struct RBasic {
    pub flags: VALUE,
    pub klass: VALUE,
}

impl RBasic {
    /// The header recorded for a word that has none (an immediate).
    pub open spec fn empty_spec() -> RBasic {
        RBasic { flags: VALUE(0), klass: VALUE(0) }
    }

    pub fn empty() -> (r: RBasic)
        ensures
            r == RBasic::empty_spec(),
    {
        RBasic { flags: VALUE(0), klass: VALUE(0) }
    }
}

} // verus!
