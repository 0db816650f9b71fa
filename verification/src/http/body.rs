//! The payload of a message.

use vstd::prelude::*;
use vstd::slice::slice_to_vec;

verus! {

/// The bytes that follow the head of a message.
#[derive(Clone, Debug)]
pub struct Body {
    data: Vec<u8>,
}

impl View for Body {
    type V = Seq<u8>;

    closed spec fn view(&self) -> Seq<u8> {
        self.data@
    }
}

impl Body {
    /// A body that holds a copy of the bytes.
    pub fn from_raw(data: &[u8]) -> (b: Body)
        ensures
            b@ == data@,
    {
        Body { data: slice_to_vec(data) }
    }

    pub fn empty() -> (b: Body)
        ensures
            b@ == Seq::<u8>::empty(),
    {
        Body { data: Vec::new() }
    }

    pub fn len(&self) -> (n: usize)
        ensures
            n == self@.len(),
    {
        self.data.len()
    }

    pub fn as_bytes(&self) -> (bytes: &[u8])
        ensures
            bytes@ == self@,
    {
        self.data.as_slice()
    }
}

} // verus!
