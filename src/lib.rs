//! Relative pointers: a pointer stored as a signed byte offset from its own
//! location, so that a pointer and its pointee can move together.
//!
//! Addresses are plain `usize` values; address 0 is the null address.

pub mod error;
pub mod delta;
pub mod metadata;
pub mod pointer;

pub use error::IntegerDeltaError;
pub use delta::{Delta, NonZeroOffset, Nullable};
pub use metadata::{MetaData, NoMeta, Slice, Thin, TraitObject};
pub use pointer::RelPtr;
