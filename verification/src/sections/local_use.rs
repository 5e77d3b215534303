use vstd::prelude::*;
use crate::sections::section::spec_header_len;
use crate::sections::section::spec_section_header;
use crate::utils::read_u32_from_bytes;

verus! {

/// The optional local-use section. Its payload is carried but never
/// interpreted: consumers of the decoded grid do not need it.
pub struct LocalUseSection<'a> {
    data: &'a [u8],
}

impl<'a> View for LocalUseSection<'a> {
    type V = Seq<u8>;

    closed spec fn view(&self) -> Seq<u8> {
        self.data@
    }
}

impl<'a> LocalUseSection<'a> {
    pub open spec fn wf(&self) -> bool {
        self@.len() >= 5 && self@[4] == 2
    }

    pub(crate) fn new(data: &'a [u8]) -> (r: Self)
        ensures
            r@ == data@,
    {
        LocalUseSection { data }
    }

    /// Slices the section whose header starts at `offset` out of `data`.
    pub fn from_data(data: &'a [u8], offset: usize) -> (r: LocalUseSection<'a>)
        requires
            spec_section_header(data@, offset as int) is Some,
        ensures
            r@ == data@.subrange(
                offset as int,
                offset + spec_header_len(data@, offset as int),
            ),
    {
        let dl = data.len();
        let len = section_length(data, offset);
        proof {
            assert(offset + len <= dl);
        }
        LocalUseSection { data: vstd::slice::slice_subrange(data, offset, offset + len) }
    }

    /// Whether this section really is a local-use section (number 2).
    pub fn is_local_use(&self) -> (r: bool)
        ensures
            r == (self@.len() >= 5 && self@[4] == 2),
    {
        self.data.len() >= 5 && *vstd::slice::slice_index_get(self.data, 4) == 2
    }

    /// The whole section, header included.
    pub fn data(&self) -> (r: &[u8])
        ensures
            r@ == self@,
    {
        self.data
    }

    pub fn len(&self) -> (r: usize)
        ensures
            r == self@.len(),
    {
        self.data.len()
    }
}

/// The byte length of the section whose header starts at `offset`.
pub fn section_length(data: &[u8], offset: usize) -> (r: usize)
    requires
        spec_section_header(data@, offset as int) is Some,
    ensures
        r == spec_header_len(data@, offset as int),
        offset + r <= data@.len(),
{
    let dl = data.len();
    proof {
        assert(offset + 4 <= dl);
    }
    let b0 = *vstd::slice::slice_index_get(data, offset);
    let b1 = *vstd::slice::slice_index_get(data, offset + 1);
    let b2 = *vstd::slice::slice_index_get(data, offset + 2);
    let b3 = *vstd::slice::slice_index_get(data, offset + 3);
    if b0 == 71 && b1 == 82 && b2 == 73 && b3 == 66 {
        16
    } else if b0 == 55 && b1 == 55 && b2 == 55 && b3 == 55 {
        4
    } else {
        read_u32_from_bytes(data, offset).unwrap() as usize
    }
}

} // verus!
