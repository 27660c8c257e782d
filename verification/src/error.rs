//! The failure modes of string conversion.

use vstd::prelude::*;

verus! {

/// An error produced while converting a value into an owned C string.
#[derive(Clone, Copy, Debug, PartialEq, Eq, Structural)]
pub enum Error {
    /// The byte content holds a null byte before the terminator position.
    InvalidCString,
    /// Platform path text is not representable as Unicode text, so no byte
    /// content can be derived from it.
    UnsupportedEncoding,
}

impl Error {
    /// A short diagnostic message for this error.
    pub fn message(&self) -> (r: &'static str)
        ensures
            r@.len() > 0,
    {
        match self {
            Error::InvalidCString => {
                proof {
                    reveal_strlit("interior null byte in C string content");
                }
                "interior null byte in C string content"
            },
            Error::UnsupportedEncoding => {
                proof {
                    reveal_strlit("only Unicode path text is accepted on this platform");
                }
                "only Unicode path text is accepted on this platform"
            },
        }
    }
}

} // verus!
