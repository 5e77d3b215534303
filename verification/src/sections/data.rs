use vstd::prelude::*;
use crate::utils::be_u32_of;

verus! {

/// The data section: the bit-packed payload that the data representation
/// template turns into numeric values.
pub struct DataSection<'a> {
    data: &'a [u8],
}

impl<'a> View for DataSection<'a> {
    type V = Seq<u8>;

    closed spec fn view(&self) -> Seq<u8> {
        self.data@
    }
}

impl<'a> DataSection<'a> {
    pub open spec fn wf(&self) -> bool {
        self@.len() >= 5 && self@.len() == be_u32_of(self@, 0) && self@[4] == 7
    }

    pub(crate) fn new(data: &'a [u8]) -> (r: Self)
        ensures
            r@ == data@,
    {
        DataSection { data }
    }

    /// The packed payload: everything after the five header bytes.
    pub fn raw_bit_data(&self) -> (r: &[u8])
        requires
            self.wf(),
        ensures
            r@ == self@.subrange(5, self@.len() as int),
    {
        vstd::slice::slice_subrange(self.data, 5, self.data.len())
    }

    pub fn len(&self) -> (r: usize)
        ensures
            r == self@.len(),
    {
        self.data.len()
    }
}

} // verus!
