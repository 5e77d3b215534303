use vstd::prelude::*;
use crate::templates::product::HorizontalAnalysisForecastTemplate;
use crate::templates::product::ProductTemplate;
use crate::templates::product::spec_product_definition_template;
use crate::utils::be_u16_of;
use crate::utils::be_u32_of;
use crate::utils::read_u16_from_bytes;
use crate::utils::read_u32_from_bytes;

verus! {

/// The product definition section: what variable the message carries and
/// for what forecast time, laid out by its product definition template.
pub struct ProductDefinitionSection<'a> {
    data: &'a [u8],
}

impl<'a> View for ProductDefinitionSection<'a> {
    type V = Seq<u8>;

    closed spec fn view(&self) -> Seq<u8> {
        self.data@
    }
}

impl<'a> ProductDefinitionSection<'a> {
    pub open spec fn wf(&self) -> bool {
        self@.len() >= 9 && self@.len() == be_u32_of(self@, 0) && self@[4] == 4
    }

    pub(crate) fn new(data: &'a [u8]) -> (r: Self)
        ensures
            r@ == data@,
    {
        ProductDefinitionSection { data }
    }

    /// The product definition template discriminator.
    pub fn product_definition_template_number(&self) -> (r: u16)
        requires
            self.wf(),
        ensures
            r == be_u16_of(self@, 7),
    {
        read_u16_from_bytes(self.data, 7).unwrap()
    }

    /// Resolves the template discriminator against the closed set of
    /// implemented product templates; anything but a complete horizontal
    /// analysis/forecast template is reported `Unsupported`, not an error.
    /// `discipline` is the message's discipline octet, which parameter
    /// resolution needs alongside the template's own fields.
    pub fn product_definition_template(&self, discipline: u8) -> (r: ProductTemplate)
        requires
            self.wf(),
        ensures
            r == spec_product_definition_template(self@, discipline),
    {
        let num = read_u16_from_bytes(self.data, 7).unwrap();
        if num != 0 || self.data.len() < 34 {
            return ProductTemplate::Unsupported;
        }
        let category = *vstd::slice::slice_index_get(self.data, 9);
        let parameter_number = *vstd::slice::slice_index_get(self.data, 10);
        let generating_process = *vstd::slice::slice_index_get(self.data, 11);
        let time_unit = *vstd::slice::slice_index_get(self.data, 17);
        let forecast_time = read_u32_from_bytes(self.data, 18).unwrap();
        let first_fixed_surface_type = *vstd::slice::slice_index_get(self.data, 22);
        ProductTemplate::HorizontalAnalysisForecast(
            HorizontalAnalysisForecastTemplate {
                discipline,
                category,
                parameter_number,
                generating_process,
                time_unit,
                forecast_time,
                first_fixed_surface_type,
            },
        )
    }

    pub fn len(&self) -> (r: usize)
        ensures
            r == self@.len(),
    {
        self.data.len()
    }
}

} // verus!
