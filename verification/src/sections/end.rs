use vstd::prelude::*;
use crate::sections::section::spec_is_end_magic;

verus! {

/// The end section: the fixed four-byte "7777" terminator of a message.
pub struct EndSection<'a> {
    data: &'a [u8],
}

impl<'a> View for EndSection<'a> {
    type V = Seq<u8>;

    closed spec fn view(&self) -> Seq<u8> {
        self.data@
    }
}

impl<'a> EndSection<'a> {
    pub open spec fn wf(&self) -> bool {
        self@.len() == 4 && spec_is_end_magic(self@, 0)
    }

    pub(crate) fn new(data: &'a [u8]) -> (r: Self)
        ensures
            r@ == data@,
    {
        EndSection { data }
    }

    pub fn len(&self) -> (r: usize)
        ensures
            r == self@.len(),
    {
        self.data.len()
    }
}

} // verus!
