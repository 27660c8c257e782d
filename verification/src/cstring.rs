//! Conversion of byte and text values into owned null-terminated buffers.

use crate::error::Error;
use vstd::prelude::*;
use vstd::slice::{slice_subrange, slice_to_vec};
use vstd::string::StrSliceExecFns;

verus! {

/// True when `s` holds a null byte, i.e. a byte that would end a C string
/// early if `s` were its content.
pub open spec fn has_interior_nul(s: Seq<u8>) -> bool {
    exists|i: int| 0 <= i < s.len() && s[i] == 0
}

/// An owned, heap-allocated, null-terminated byte buffer whose content holds
/// no interior null byte.
///
/// The view of an `OwnedCString` is its content: the bytes before the
/// trailing terminator.
#[derive(Debug)]
pub struct OwnedCString {
    buf: Vec<u8>,
}

impl View for OwnedCString {
    type V = Seq<u8>;

    closed spec fn view(&self) -> Seq<u8> {
        self.buf@.take(self.buf@.len() - 1)
    }
}

impl OwnedCString {
    #[verifier::type_invariant]
    pub(crate) closed spec fn wf(self) -> bool {
        &&& self.buf@.len() >= 1
        &&& self.buf@[self.buf@.len() - 1] == 0
        &&& !has_interior_nul(self@)
    }

    /// A well-formed owned C string has no interior null byte in its
    /// content.
    pub(crate) proof fn lemma_wf_no_interior_nul(&self)
        requires
            self.wf(),
        ensures
            !has_interior_nul(self@),
    {
    }

    /// Builds an owned C string from `bytes` by appending a null terminator,
    /// after checking that `bytes` itself holds no null byte.
    pub fn new(bytes: Vec<u8>) -> (r: Result<OwnedCString, Error>)
        ensures
            !has_interior_nul(bytes@) ==> (r matches Ok(c) && c@ == bytes@),
            has_interior_nul(bytes@) ==> (r matches Err(e) && e == Error::InvalidCString),
    {
        let n = bytes.len();
        let mut i: usize = 0;
        while i < n
            invariant
                n == bytes@.len(),
                i <= n,
                forall|j: int| 0 <= j < i ==> bytes@[j] != 0,
            decreases n - i,
        {
            if bytes[i] == 0 {
                return Err(Error::InvalidCString);
            }
            i += 1;
        }
        let mut buf = bytes;
        buf.push(0);
        let c = OwnedCString { buf };
        proof {
            assert(c@ =~= bytes@);
        }
        Ok(c)
    }

    /// The content of the buffer, without the trailing terminator. The
    /// content of any `OwnedCString` is free of interior null bytes.
    pub fn as_bytes(&self) -> (r: &[u8])
        ensures
            r@ == self@,
            !has_interior_nul(self@),
    {
        proof {
            use_type_invariant(self);
        }
        let n = self.buf.len();
        let r = slice_subrange(self.buf.as_slice(), 0, n - 1);
        proof {
            assert(r@ =~= self@);
        }
        r
    }

    /// The whole buffer: the content followed by the null terminator.
    pub fn as_bytes_with_nul(&self) -> (r: &[u8])
        ensures
            r@ == self@.push(0),
            !has_interior_nul(self@),
    {
        proof {
            use_type_invariant(self);
            assert(self.buf@ =~= self@.push(0));
        }
        self.buf.as_slice()
    }

    /// The length of the content, not counting the terminator.
    pub fn len(&self) -> (n: usize)
        ensures
            n == self@.len(),
            !has_interior_nul(self@),
    {
        proof {
            use_type_invariant(self);
        }
        self.buf.len() - 1
    }

    /// Gives up the buffer, content followed by the null terminator.
    pub fn into_bytes_with_nul(self) -> (v: Vec<u8>)
        ensures
            v@ == self@.push(0),
            !has_interior_nul(self@),
    {
        proof {
            use_type_invariant(&self);
            assert(self.buf@ =~= self@.push(0));
        }
        self.buf
    }
}

/// The error produced by a value whose byte content is `bytes` when
/// `encodable` says whether the value has byte content at all: text that
/// cannot be encoded is reported before its bytes are ever examined.
pub open spec fn conversion_err(encodable: bool) -> Error {
    if !encodable {
        Error::UnsupportedEncoding
    } else {
        Error::InvalidCString
    }
}

/// What `IntoCString::into_c_string` returns for a value whose byte content
/// is `bytes`, where `encodable` says whether the value has byte content at
/// all: the content with a terminator appended on success, and the matching
/// error otherwise.
pub open spec fn conversion_post(bytes: Seq<u8>, encodable: bool, r: Result<
    OwnedCString,
    Error,
>) -> bool {
    &&& (encodable && !has_interior_nul(bytes)) ==> (r matches Ok(c) && c@ == bytes)
    &&& !(encodable && !has_interior_nul(bytes)) ==> (r matches Err(e) && e == conversion_err(
        encodable,
    ))
}

/// A class of types that can be converted to owned C strings.
///
/// Such a value stands for a byte sequence, and conversion fails exactly when
/// that sequence holds an interior null byte, or — for platform path text —
/// when no byte sequence can be derived from the value at all.
pub trait IntoCString: Sized {
    /// The byte content that this value stands for.
    spec fn c_bytes(self) -> Seq<u8>;

    /// False only for platform path text that is not representable as
    /// Unicode; every plain byte or text value is encodable.
    spec fn encodable(self) -> bool;

    /// Consume this value, converting it into an owned C string.
    fn into_c_string(self) -> (r: Result<OwnedCString, Error>)
        ensures
            conversion_post(self.c_bytes(), self.encodable(), r),
    ;
}

/// True when converting `t` succeeds: it has byte content and that content
/// holds no interior null byte.
pub open spec fn conv_ok<T: IntoCString>(t: T) -> bool {
    t.encodable() && !has_interior_nul(t.c_bytes())
}

/// The error that converting `t` produces when `conv_ok(t)` fails.
pub open spec fn conv_err<T: IntoCString>(t: T) -> Error {
    conversion_err(t.encodable())
}

impl IntoCString for Vec<u8> {
    open spec fn c_bytes(self) -> Seq<u8> {
        self@
    }

    open spec fn encodable(self) -> bool {
        true
    }

    fn into_c_string(self) -> (r: Result<OwnedCString, Error>)
        ensures
            conversion_post(self.c_bytes(), self.encodable(), r),
    {
        OwnedCString::new(self)
    }
}

impl<'a> IntoCString for &'a [u8] {
    open spec fn c_bytes(self) -> Seq<u8> {
        self@
    }

    open spec fn encodable(self) -> bool {
        true
    }

    fn into_c_string(self) -> (r: Result<OwnedCString, Error>)
        ensures
            conversion_post(self.c_bytes(), self.encodable(), r),
    {
        OwnedCString::new(slice_to_vec(self))
    }
}

impl<'a> IntoCString for &'a Vec<u8> {
    open spec fn c_bytes(self) -> Seq<u8> {
        self@
    }

    open spec fn encodable(self) -> bool {
        true
    }

    /// A borrowed byte vector is copied, then converted like an owned one.
    fn into_c_string(self) -> (r: Result<OwnedCString, Error>)
        ensures
            conversion_post(self.c_bytes(), self.encodable(), r),
    {
        OwnedCString::new(slice_to_vec(self.as_slice()))
    }
}

impl<'a> IntoCString for &'a str {
    open spec fn c_bytes(self) -> Seq<u8> {
        vstd::utf8::encode_utf8(self@)
    }

    open spec fn encodable(self) -> bool {
        true
    }

    fn into_c_string(self) -> (r: Result<OwnedCString, Error>)
        ensures
            conversion_post(self.c_bytes(), self.encodable(), r),
    {
        OwnedCString::new(self.as_bytes_vec())
    }
}

impl<'a> IntoCString for &'a String {
    open spec fn c_bytes(self) -> Seq<u8> {
        vstd::utf8::encode_utf8(self@)
    }

    open spec fn encodable(self) -> bool {
        true
    }

    /// Borrowed text is copied, then converted like owned text.
    fn into_c_string(self) -> (r: Result<OwnedCString, Error>)
        ensures
            conversion_post(self.c_bytes(), self.encodable(), r),
    {
        OwnedCString::new(self.as_str().as_bytes_vec())
    }
}

impl IntoCString for String {
    open spec fn c_bytes(self) -> Seq<u8> {
        vstd::utf8::encode_utf8(self@)
    }

    open spec fn encodable(self) -> bool {
        true
    }

    fn into_c_string(self) -> (r: Result<OwnedCString, Error>)
        ensures
            conversion_post(self.c_bytes(), self.encodable(), r),
    {
        OwnedCString::new(self.as_str().as_bytes_vec())
    }
}

impl IntoCString for OwnedCString {
    open spec fn c_bytes(self) -> Seq<u8> {
        self@
    }

    open spec fn encodable(self) -> bool {
        true
    }

    /// An owned C string converts to itself, without copying.
    fn into_c_string(self) -> (r: Result<OwnedCString, Error>)
        ensures
            conversion_post(self.c_bytes(), self.encodable(), r),
    {
        proof {
            use_type_invariant(&self);
        }
        Ok(self)
    }
}

impl<'a> IntoCString for &'a OwnedCString {
    open spec fn c_bytes(self) -> Seq<u8> {
        self@
    }

    open spec fn encodable(self) -> bool {
        true
    }

    /// A borrowed owned C string converts to a copy of itself; the copy
    /// cannot fail, since the content already holds no interior null byte.
    fn into_c_string(self) -> (r: Result<OwnedCString, Error>)
        ensures
            conversion_post(self.c_bytes(), self.encodable(), r),
    {
        OwnedCString::new(slice_to_vec(self.as_bytes()))
    }
}

/// Converts the Unicode reading of platform path text, used on platforms
/// whose native path representation is not a byte sequence. `None` stands
/// for text with no Unicode reading and is rejected before any null-byte
/// check; `Some` text is converted like any other.
pub fn unicode_into_c_string(text: Option<String>) -> (r: Result<OwnedCString, Error>)
    ensures
        (text matches Some(s) ==> conversion_post(s.c_bytes(), s.encodable(), r)),
        (text is None ==> (r matches Err(e) && e == Error::UnsupportedEncoding)),
{
    match text {
        Some(s) => s.into_c_string(),
        None => Err(Error::UnsupportedEncoding),
    }
}

} // verus!
