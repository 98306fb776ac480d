//! Embedding support for Matz's Ruby interpreter: a classifier for the
//! runtime's tagged words, fluent class and module registration plans, and
//! the single-runtime lifecycle with its evaluation error boundary.
pub mod builder;
pub mod ffi;
pub mod value;
pub mod vm;

pub use self::value::Value;
pub use self::vm::{ErrorKind, VM};
