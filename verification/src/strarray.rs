//! Batch conversion into an owned collection of C strings.
//!
//! A native call that takes an array of C strings needs every buffer of the
//! batch alive at once, in input order. [`iter2cstrs`] builds that owning
//! collection; deriving the raw pointer array and the fixed-layout descriptor
//! from it is left to the unverified foreign-function layer, which must keep
//! the [`CStringArray`] alive for as long as those pointers are used.

use crate::cstring::{conv_err, conv_ok, has_interior_nul, IntoCString, OwnedCString};
use crate::error::Error;
use vstd::prelude::*;

verus! {

/// An owned, ordered collection of C strings, the ownership anchor for a
/// native string-array argument.
///
/// The view of a `CStringArray` is the sequence of the buffers' contents,
/// in order, each without its terminator.
#[derive(Debug)]
pub struct CStringArray {
    strings: Vec<OwnedCString>,
}

impl View for CStringArray {
    type V = Seq<Seq<u8>>;

    closed spec fn view(&self) -> Seq<Seq<u8>> {
        self.strings@.map_values(|c: OwnedCString| c@)
    }
}

impl CStringArray {
    /// The number of C strings held.
    pub fn count(&self) -> (n: usize)
        ensures
            n == self@.len(),
    {
        self.strings.len()
    }

    /// The `i`-th C string, in input order. Its content, like that of any
    /// `OwnedCString`, is free of interior null bytes.
    pub fn get(&self, i: usize) -> (r: &OwnedCString)
        requires
            i < self@.len(),
        ensures
            r@ == self@[i as int],
            !has_interior_nul(self@[i as int]),
    {
        let r = &self.strings[i];
        proof {
            use_type_invariant(r);
            r.lemma_wf_no_interior_nul();
        }
        r
    }
}

/// Converts every item of `items`, in order, into one owned collection of
/// C strings.
///
/// The conversion is fail-fast: items are converted front to back, and the
/// first failure is returned as the batch's result, with all partial work
/// discarded. On success the collection holds exactly one buffer per item,
/// in input order, the `i`-th buffer's content being the `i`-th item's byte
/// content.
#[verifier::loop_isolation(false)]
pub fn iter2cstrs<T: IntoCString>(items: Vec<T>) -> (r: Result<CStringArray, Error>)
    ensures
        (r matches Ok(arr) ==> {
            &&& arr@.len() == items@.len()
            &&& forall|k: int| 0 <= k < items@.len() ==> conv_ok(#[trigger] items@[k])
            &&& forall|k: int|
                0 <= k < items@.len() ==> arr@[k] == (#[trigger] items@[k]).c_bytes()
        }),
        (r matches Err(e) ==> exists|k: int|
            {
                &&& 0 <= k < items@.len()
                &&& !conv_ok(#[trigger] items@[k])
                &&& forall|j: int| 0 <= j < k ==> conv_ok(#[trigger] items@[j])
                &&& e == conv_err(items@[k])
            }),
        (forall|k: int| 0 <= k < items@.len() ==> conv_ok(#[trigger] items@[k])) ==> r is Ok,
{
    let ghost orig = items@;
    let mut rest = items;
    let mut done: Vec<OwnedCString> = Vec::new();
    while rest.len() > 0
        invariant
            done@.len() + rest@.len() == orig.len(),
            rest@ == orig.subrange(done@.len() as int, orig.len() as int),
            forall|j: int| 0 <= j < done@.len() ==> conv_ok(#[trigger] orig[j]),
            forall|j: int| 0 <= j < done@.len() ==> (#[trigger] done@[j])@ == orig[j].c_bytes(),
        decreases rest@.len(),
    {
        let ghost k = done@.len() as int;
        let t = rest.remove(0);
        proof {
            assert(t == orig[k]);
        }
        match t.into_c_string() {
            Ok(c) => {
                done.push(c);
            },
            Err(e) => {
                proof {
                    assert(!conv_ok(orig[k]) && e == conv_err(orig[k]));
                }
                return Err(e);
            },
        }
        proof {
            assert(rest@ =~= orig.subrange(done@.len() as int, orig.len() as int));
        }
    }
    let arr = CStringArray { strings: done };
    proof {
        assert forall|k: int| 0 <= k < orig.len() implies arr@[k] == (
        #[trigger] orig[k]).c_bytes() by {
            assert(arr@[k] == done@[k]@);
        }
    }
    Ok(arr)
}

} // verus!
