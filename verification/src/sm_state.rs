//! Serialized stream management state.
use vstd::prelude::*;

verus! {

/// Stream management state serialized by the C library, borrowed from it.
#[derive(Clone, Copy)]
pub struct SerializedSmStateRef<'b> {
    buf: &'b [u8],
}

impl<'b> SerializedSmStateRef<'b> {
    /// Wraps the bytes the C library handed over.
    pub fn new(buf: &'b [u8]) -> (r: Self)
        ensures
            r.bytes() == buf@,
    {
        SerializedSmStateRef { buf }
    }

    /// The serialized bytes.
    pub closed spec fn bytes(&self) -> Seq<u8> {
        self.buf@
    }

    /// An owned copy of the state.
    pub fn to_owned(&self) -> (r: SerializedSmState)
        ensures
            r.bytes() == self.bytes(),
    {
        SerializedSmState { buf: vstd::slice::slice_to_vec(self.buf) }
    }

    /// The serialized bytes.
    pub fn as_slice(&self) -> (r: &'b [u8])
        ensures
            r@ == self.bytes(),
    {
        self.buf
    }
}

/// Owned serialized stream management state, to be restored into a connection later.
pub struct SerializedSmState {
    buf: Vec<u8>,
}

impl SerializedSmState {
    /// The serialized bytes.
    pub closed spec fn bytes(&self) -> Seq<u8> {
        self.buf@
    }

    /// The serialized bytes.
    pub fn as_slice(&self) -> (r: &[u8])
        ensures
            r@ == self.bytes(),
    {
        self.buf.as_slice()
    }
}

} // verus!
