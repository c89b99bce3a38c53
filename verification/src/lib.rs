//! Merge options and annotated-commit handles for a binding to a native
//! version-control library.
//!
//! The native library owns the merge algorithm; this crate owns two things.
//! [`MergeOptions`] builds the options record that a native merge call reads,
//! starting from the native defaults and changing one field or one bit per
//! setter. [`AnnotatedCommit`] guards the address of a native annotated
//! commit: it is never null, it cannot be copied, and it cannot outlive the
//! scope it was taken from.
//!
//! Everything here works on plain values. Turning a record into the native
//! structure, and an address into a pointer, is left to the caller that makes
//! the native call.

pub mod binding;
pub mod flags;
pub mod merge;
pub mod native;

pub use binding::Binding;
pub use merge::{AnnotatedCommit, MergeOptions};
pub use native::MergeOptionsRecord;
