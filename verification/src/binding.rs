//! The conversion between a guarded value and the raw handle inside it.

use vstd::prelude::*;

verus! {

/// A type that owns one raw native handle.
///
/// `from_raw` takes ownership of a handle, `raw` shows it again without giving
/// it up. What one takes, the other shows.
pub trait Binding: Sized {
    /// The raw handle.
    type Raw;

    /// Whether `raw` may be wrapped.
    spec fn raw_valid(raw: Self::Raw) -> bool;

    /// The handle that `self` owns.
    spec fn raw_handle(&self) -> Self::Raw;

    /// Wraps `raw` and takes ownership of it. The caller gives the handle up:
    /// it is not used, wrapped or freed again.
    fn from_raw(raw: Self::Raw) -> (bound: Self)
        requires
            Self::raw_valid(raw),
        ensures
            bound.raw_handle() == raw,
    ;

    /// Shows the handle, which stays owned by `self`.
    fn raw(&self) -> (raw: Self::Raw)
        ensures
            raw == self.raw_handle(),
            Self::raw_valid(raw),
    ;
}

} // verus!
