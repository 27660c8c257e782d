//! A small interoperability layer for handing strings to a native library.
//!
//! The crate has two independent parts:
//!
//! - string conversion: turning byte and text values into owned
//!   null-terminated buffers ([`cstring::OwnedCString`]), singly or in
//!   batches ([`strarray::iter2cstrs`]), rejecting content that holds an
//!   interior null byte;
//! - raw-handle binding: a uniform contract ([`binding::Binding`]) for
//!   wrapper types that carry an opaque native handle, with a null-aware
//!   optional constructor.

pub mod binding;
pub mod cstring;
pub mod error;
pub mod strarray;
