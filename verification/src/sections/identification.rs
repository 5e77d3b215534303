use vstd::prelude::*;
use crate::datetime::GribDate;
use crate::utils::be_u16_of;
use crate::utils::be_u32_of;
use crate::utils::read_u16_from_bytes;

verus! {

/// The reference date and time stored in an identification section's bytes.
pub open spec fn spec_reference_date(s: Seq<u8>) -> GribDate {
    GribDate {
        year: be_u16_of(s, 12) as u16,
        month: s[14],
        day: s[15],
        hour: s[16],
        minute: s[17],
        second: s[18],
    }
}

/// The identification section: originating centre, table versions and the
/// reference date and time of the message.
pub struct IdentificationSection<'a> {
    data: &'a [u8],
}

impl<'a> View for IdentificationSection<'a> {
    type V = Seq<u8>;

    closed spec fn view(&self) -> Seq<u8> {
        self.data@
    }
}

impl<'a> IdentificationSection<'a> {
    pub open spec fn wf(&self) -> bool {
        self@.len() >= 21 && self@.len() == be_u32_of(self@, 0) && self@[4] == 1
    }

    pub(crate) fn new(data: &'a [u8]) -> (r: Self)
        ensures
            r@ == data@,
    {
        IdentificationSection { data }
    }

    /// The reference date and time of the message (UTC).
    pub fn reference_date(&self) -> (r: GribDate)
        requires
            self.wf(),
        ensures
            r == spec_reference_date(self@),
    {
        let year = read_u16_from_bytes(self.data, 12).unwrap();
        GribDate {
            year,
            month: *vstd::slice::slice_index_get(self.data, 14),
            day: *vstd::slice::slice_index_get(self.data, 15),
            hour: *vstd::slice::slice_index_get(self.data, 16),
            minute: *vstd::slice::slice_index_get(self.data, 17),
            second: *vstd::slice::slice_index_get(self.data, 18),
        }
    }

    pub fn len(&self) -> (r: usize)
        ensures
            r == self@.len(),
    {
        self.data.len()
    }
}

} // verus!
