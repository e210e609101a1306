//! The owned, growable byte buffer that backs the machine's string values:
//! append, bulk replace, and conversion to and from byte slices and owned
//! text. No encoding validity is enforced at this layer — validation, if
//! any, is a caller concern.

use vstd::prelude::*;
use vstd::string::StrSliceExecFns;
use vstd::string::StringSliceAdditionalSpecFns;

verus! {

/// An exclusively owned sequence of bytes.
#[derive(Clone, Debug, PartialEq, Eq)]
pub struct Utf8String {
    pub inner: Vec<u8>,
}

impl View for Utf8String {
    type V = Seq<u8>;

    open spec fn view(&self) -> Seq<u8> {
        self.inner@
    }
}

impl Utf8String {
    /// A buffer owning the given bytes.
    pub fn new(content: Vec<u8>) -> (r: Utf8String)
        ensures
            r@ == content@,
    {
        Utf8String { inner: content }
    }

    /// A buffer holding the bytes of an owned text value.
    pub fn from_text(s: &str) -> (r: Utf8String)
        ensures
            r@ == s.spec_bytes(),
    {
        Utf8String { inner: s.as_bytes_vec() }
    }

    /// The number of bytes held.
    pub fn byte_len(&self) -> (r: usize)
        ensures
            r == self@.len(),
    {
        self.inner.len()
    }

    /// Append the given bytes at the end.
    pub fn extend(&mut self, other: &[u8])
        ensures
            final (self)@ == old(self)@ + other@,
    {
        self.inner.extend_from_slice(other);
        proof {
            assert(final (self)@ =~= old(self)@ + other@);
        }
    }

    /// Replace the whole contents.
    pub fn replace(&mut self, content: Vec<u8>)
        ensures
            final (self)@ == content@,
    {
        self.inner = content;
    }

    /// A view of the contents as a byte slice.
    pub fn as_slice(&self) -> (r: &[u8])
        ensures
            r@ == self@,
    {
        self.inner.as_slice()
    }

    /// Give up the buffer as an owned byte vector.
    pub fn into_vec(self) -> (r: Vec<u8>)
        ensures
            r@ == self@,
    {
        self.inner
    }
}

} // verus!
