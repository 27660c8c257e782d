//! The contract between wrapper types and the raw native handles they carry.

use vstd::prelude::*;

verus! {

/// The null raw handle, by which a native call signals absence.
pub const NULL_HANDLE: usize = 0;

/// A class of types that wrap a raw native handle.
///
/// A raw handle is an opaque native pointer, carried here as its address.
/// Binding and unbinding are pure reinterpretations of that address: wrapping
/// performs no validation, and the caller of [`Binding::from_raw`] must
/// guarantee that the handle is live and that the ownership the wrapper type
/// expects is satisfied — that guarantee lies with the native library and is
/// outside this contract. Unwrapping hands the address back without giving
/// up ownership; the wrapper must outlive every use of it.
pub trait Binding: Sized {
    /// The raw handle this wrapper carries.
    spec fn raw_spec(&self) -> usize;

    /// Wraps a raw handle, taking whatever ownership the wrapper type
    /// stands for. No validation is performed.
    fn from_raw(raw: usize) -> (r: Self)
        ensures
            r.raw_spec() == raw,
    ;

    /// The wrapped raw handle, without transferring ownership.
    fn raw(&self) -> (r: usize)
        ensures
            r == self.raw_spec(),
    ;

    /// Wraps a raw handle that may be null: `None` for the null handle, by
    /// which native calls signal absence, and otherwise exactly what
    /// [`Binding::from_raw`] wraps.
    fn from_raw_opt(raw: usize) -> (r: Option<Self>)
        ensures
            raw == NULL_HANDLE ==> r is None,
            raw != NULL_HANDLE ==> (r matches Some(w) && w.raw_spec() == raw),
    {
        if raw == NULL_HANDLE {
            None
        } else {
            Some(Self::from_raw(raw))
        }
    }
}

} // verus!
