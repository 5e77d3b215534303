use vstd::prelude::*;
use crate::templates::data_representation::DataRepresentationTemplate;
use crate::templates::data_representation::SimplePackingTemplate;
use crate::templates::data_representation::spec_data_representation_template;
use crate::utils::be_u16_of;
use crate::utils::be_u32_of;
use crate::utils::read_u16_from_bytes;
use crate::utils::read_u32_from_bytes;
use crate::utils::signed_scale;

verus! {

/// The data representation section: the number of packed values and the
/// template that says how they are packed.
pub struct DataRepresentationSection<'a> {
    data: &'a [u8],
}

impl<'a> View for DataRepresentationSection<'a> {
    type V = Seq<u8>;

    closed spec fn view(&self) -> Seq<u8> {
        self.data@
    }
}

impl<'a> DataRepresentationSection<'a> {
    pub open spec fn wf(&self) -> bool {
        self@.len() >= 11 && self@.len() == be_u32_of(self@, 0) && self@[4] == 5
    }

    pub(crate) fn new(data: &'a [u8]) -> (r: Self)
        ensures
            r@ == data@,
    {
        DataRepresentationSection { data }
    }

    /// The declared number of values packed in the data section.
    pub fn data_point_count(&self) -> (r: usize)
        requires
            self.wf(),
        ensures
            r == be_u32_of(self@, 5),
    {
        read_u32_from_bytes(self.data, 5).unwrap() as usize
    }

    /// The data representation template discriminator.
    pub fn data_representation_template_number(&self) -> (r: u16)
        requires
            self.wf(),
        ensures
            r == be_u16_of(self@, 9),
    {
        read_u16_from_bytes(self.data, 9).unwrap()
    }

    /// Resolves the template discriminator against the closed set of
    /// implemented representations; anything but a complete simple packing
    /// template is reported `Unsupported`, not an error.
    pub fn data_representation_template(&self) -> (r: DataRepresentationTemplate)
        requires
            self.wf(),
        ensures
            r == spec_data_representation_template(self@),
    {
        let num = read_u16_from_bytes(self.data, 9).unwrap();
        if num != 0 || self.data.len() < 21 {
            return DataRepresentationTemplate::Unsupported;
        }
        let reference_bits = read_u32_from_bytes(self.data, 11).unwrap();
        let binary_scale = signed_scale(read_u16_from_bytes(self.data, 15).unwrap());
        let decimal_scale = signed_scale(read_u16_from_bytes(self.data, 17).unwrap());
        let bits_per_value = *vstd::slice::slice_index_get(self.data, 19);
        DataRepresentationTemplate::SimplePacking(
            SimplePackingTemplate { reference_bits, binary_scale, decimal_scale, bits_per_value },
        )
    }

    pub fn len(&self) -> (r: usize)
        ensures
            r == self@.len(),
    {
        self.data.len()
    }
}

} // verus!
