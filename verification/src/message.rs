use vstd::prelude::*;
use crate::datetime::GribDate;
use crate::datetime::date_plus_minutes;
use crate::error::GribError;
use crate::sections::bitmap::BitmapSection;
use crate::sections::bitmap::spec_data_index;
use crate::sections::bitmap::spec_has_bitmap;
use crate::sections::bitmap::spec_map_data;
use crate::sections::data::DataSection;
use crate::sections::data_representation::DataRepresentationSection;
use crate::sections::end::EndSection;
use crate::sections::grid_definition::GridDefinitionSection;
use crate::sections::identification::IdentificationSection;
use crate::sections::identification::spec_reference_date;
use crate::sections::indicator::Discipline;
use crate::sections::indicator::IndicatorSection;
use crate::sections::local_use::LocalUseSection;
use crate::sections::product_definition::ProductDefinitionSection;
use crate::sections::section::Section;
use crate::sections::section::spec_header_len;
use crate::sections::section::spec_header_number;
use crate::sections::section::spec_section_header;
use crate::templates::data_representation::DataRepresentationTemplate;
use crate::templates::data_representation::spec_data_representation_template;
use crate::templates::grid_definition::GridDefinitionTemplate;
use crate::templates::grid_definition::spec_grid_definition_template;
use crate::templates::grid_definition::lemma_index_for_location_inverse;
use vstd::arithmetic::mul::lemma_mul_inequality;
use crate::templates::product::Parameter;
use crate::templates::product::ProductTemplate;
use crate::templates::product::spec_parameter_for;
use crate::templates::product::spec_product_definition_template;
use crate::utils::be_u16_of;
use crate::utils::be_u32_of;
use crate::utils::be_u64_of;

verus! {

/// The mathematical model of one parsed message: the bytes of each of its
/// sections, in buffer order.
pub ghost struct MessageView {
    pub indicator: Seq<u8>,
    pub identification: Seq<u8>,
    pub local_use: Option<Seq<u8>>,
    pub grid_definition: Seq<u8>,
    pub product_definition: Seq<u8>,
    pub data_representation: Seq<u8>,
    pub bitmap: Seq<u8>,
    pub data: Seq<u8>,
    pub end: Seq<u8>,
}

/// The bytes of the section starting at `off`.
pub open spec fn spec_section_slice(s: Seq<u8>, off: int) -> Seq<u8> {
    s.subrange(off, off + spec_header_len(s, off))
}

/// Parses one whole message at `off`: the indicator section, the seven
/// further sections in ascending section-number order with one optional
/// local-use section after the identification, and the "7777" terminator,
/// whose end must lie exactly where the indicator's declared total length
/// says. A framing failure is `MalformedSection`; a section of an
/// unexpected number (the buffer ran into the next message, or sections
/// are out of order) is `IncompleteMessage`.
pub open spec fn spec_parse(s: Seq<u8>, off: int) -> Result<MessageView, GribError> {
    if spec_section_header(s, off) is None {
        Err(GribError::MalformedSection)
    } else if spec_header_number(s, off) != 0 {
        Err(GribError::IncompleteMessage)
    } else {
        let o1 = off + spec_header_len(s, off);
        if spec_section_header(s, o1) is None {
            Err(GribError::MalformedSection)
        } else if spec_header_number(s, o1) != 1 {
            Err(GribError::IncompleteMessage)
        } else {
            let o2 = o1 + spec_header_len(s, o1);
            if spec_section_header(s, o2) is None {
                Err(GribError::MalformedSection)
            } else {
                let has_local = spec_header_number(s, o2) == 2;
                let o3 = if has_local {
                    o2 + spec_header_len(s, o2)
                } else {
                    o2
                };
                if spec_section_header(s, o3) is None {
                    Err(GribError::MalformedSection)
                } else if spec_header_number(s, o3) != 3 {
                    Err(GribError::IncompleteMessage)
                } else {
                    let o4 = o3 + spec_header_len(s, o3);
                    if spec_section_header(s, o4) is None {
                        Err(GribError::MalformedSection)
                    } else if spec_header_number(s, o4) != 4 {
                        Err(GribError::IncompleteMessage)
                    } else {
                        let o5 = o4 + spec_header_len(s, o4);
                        if spec_section_header(s, o5) is None {
                            Err(GribError::MalformedSection)
                        } else if spec_header_number(s, o5) != 5 {
                            Err(GribError::IncompleteMessage)
                        } else {
                            let o6 = o5 + spec_header_len(s, o5);
                            if spec_section_header(s, o6) is None {
                                Err(GribError::MalformedSection)
                            } else if spec_header_number(s, o6) != 6 {
                                Err(GribError::IncompleteMessage)
                            } else {
                                let o7 = o6 + spec_header_len(s, o6);
                                if spec_section_header(s, o7) is None {
                                    Err(GribError::MalformedSection)
                                } else if spec_header_number(s, o7) != 7 {
                                    Err(GribError::IncompleteMessage)
                                } else {
                                    let o8 = o7 + spec_header_len(s, o7);
                                    if spec_section_header(s, o8) is None {
                                        Err(GribError::MalformedSection)
                                    } else if spec_header_number(s, o8) != 8 {
                                        Err(GribError::IncompleteMessage)
                                    } else {
                                        let o9 = o8 + spec_header_len(s, o8);
                                        if be_u64_of(spec_section_slice(s, off), 8) != o9 - off {
                                            Err(GribError::MalformedSection)
                                        } else {
                                            Ok(
                                                MessageView {
                                                    indicator: spec_section_slice(s, off),
                                                    identification: spec_section_slice(s, o1),
                                                    local_use: if has_local {
                                                        Some(spec_section_slice(s, o2))
                                                    } else {
                                                        None
                                                    },
                                                    grid_definition: spec_section_slice(s, o3),
                                                    product_definition: spec_section_slice(s, o4),
                                                    data_representation: spec_section_slice(s, o5),
                                                    bitmap: spec_section_slice(s, o6),
                                                    data: spec_section_slice(s, o7),
                                                    end: spec_section_slice(s, o8),
                                                },
                                            )
                                        }
                                    }
                                }
                            }
                        }
                    }
                }
            }
        }
    }
}

impl MessageView {
    /// The declared total byte length of the message.
    pub open spec fn total_len(&self) -> int {
        be_u64_of(self.indicator, 8)
    }
}

/// A parsed message succeeds at exactly its declared total length, which
/// covers at least the fixed sizes of the eight mandatory sections and
/// never runs past the buffer.
pub proof fn lemma_spec_parse_bounds(s: Seq<u8>, off: int)
    requires
        spec_parse(s, off) is Ok,
    ensures
        86 <= spec_parse(s, off)->Ok_0.total_len(),
        off + spec_parse(s, off)->Ok_0.total_len() <= s.len(),
{
}

/// The grid definition template of a parsed message.
pub open spec fn spec_grid_template_of(m: MessageView) -> GridDefinitionTemplate {
    spec_grid_definition_template(m.grid_definition)
}

/// The product definition template of a parsed message.
pub open spec fn spec_product_template_of(m: MessageView) -> ProductTemplate {
    spec_product_definition_template(m.product_definition, m.indicator[6])
}

/// The data representation template of a parsed message.
pub open spec fn spec_drs_template_of(m: MessageView) -> DataRepresentationTemplate {
    spec_data_representation_template(m.data_representation)
}

/// The parameter identity views of a parsed message, when its product
/// template is implemented and its triple is in the tables.
pub open spec fn spec_parameter_of(m: MessageView) -> Option<(Seq<char>, Seq<char>, Seq<char>)> {
    match spec_product_template_of(m) {
        ProductTemplate::HorizontalAnalysisForecast(t) => spec_parameter_for(
            t.discipline,
            t.category,
            t.parameter_number,
        ),
        ProductTemplate::Unsupported => None,
    }
}

/// The forecast offset in minutes of a parsed message.
pub open spec fn spec_forecast_offset_of(m: MessageView) -> Option<int> {
    match spec_product_template_of(m) {
        ProductTemplate::HorizontalAnalysisForecast(t) => t.spec_offset_minutes(),
        ProductTemplate::Unsupported => None,
    }
}

/// The forecast date of a parsed message: the reference date advanced by
/// the forecast offset.
pub open spec fn spec_forecast_date_of(m: MessageView) -> Option<GribDate> {
    match spec_forecast_offset_of(m) {
        Some(mi) => {
            let rd = spec_reference_date(m.identification);
            Some(
                date_plus_minutes(
                    rd.year as int,
                    rd.month as int,
                    rd.day as int,
                    rd.hour as int,
                    rd.minute as int,
                    rd.second as int,
                    mi,
                ),
            )
        },
        None => None,
    }
}

/// The bit-packed payload of the data section.
pub open spec fn spec_data_payload(m: MessageView) -> Seq<u8> {
    m.data.subrange(5, m.data.len() as int)
}

/// The number of values packed in the data section, as the data
/// representation section declares it.
pub open spec fn spec_compact_count(m: MessageView) -> int {
    be_u32_of(m.data_representation, 5)
}

/// The number of grid points, as the grid definition section declares it.
pub open spec fn spec_grid_count(m: MessageView) -> int {
    be_u32_of(m.grid_definition, 6)
}

/// The compact (pre-bitmap) sequence of packed integers of the message.
pub open spec fn spec_compact_values(m: MessageView) -> Seq<u64> {
    Seq::new(
        spec_compact_count(m) as nat,
        |k: int|
            spec_drs_template_of(m)->SimplePacking_0.spec_value_at(
                spec_data_payload(m),
                k,
            ) as u64,
    )
}

/// The full decoded grid of the message: the compact values spread over
/// the grid by the bitmap, one entry (possibly the missing-value sentinel)
/// per grid point.
pub open spec fn spec_decoded_values(m: MessageView) -> Seq<Option<u64>> {
    spec_map_data(m.bitmap, spec_compact_values(m), spec_grid_count(m))
}

/// Whether the message's packed payload can be decoded: an implemented
/// representation template whose declared values fit the payload's bits.
pub open spec fn spec_can_decode(m: MessageView) -> bool {
    &&& spec_drs_template_of(m) is SimplePacking
    &&& spec_drs_template_of(m)->SimplePacking_0.spec_can_unpack(
        spec_data_payload(m).len() as int,
        spec_compact_count(m),
    )
}

/// Whether every part `metadata` needs resolves on this message.
pub open spec fn spec_metadata_ok(m: MessageView) -> bool {
    &&& spec_grid_template_of(m) is RegularLatLng
    &&& spec_product_template_of(m) is HorizontalAnalysisForecast
    &&& spec_parameter_of(m) is Some
    &&& spec_forecast_offset_of(m) is Some
}

/// What a metadata record of message `m` must hold, field by field.
pub open spec fn spec_metadata_matches(m: MessageView, md: MessageMetadata) -> bool {
    &&& md.discipline == Discipline::spec_from_value(m.indicator[6])
    &&& md.reference_date == spec_reference_date(m.identification)
    &&& Some(md.forecast_date) == spec_forecast_date_of(m)
    &&& (md.variable_name@, md.variable_abbreviation@, md.units@) == spec_parameter_of(m).unwrap()
    &&& (spec_grid_template_of(m) matches GridDefinitionTemplate::RegularLatLng(t) ==> md.region
        == ((t.la1, t.lo1), (t.la2, t.lo2)) && md.location_grid == (
        t.nj as usize,
        t.ni as usize,
    ) && md.location_resolution == (t.dj as i64, t.di as i64))
    &&& md.data_template_number == be_u16_of(m.data_representation, 9)
    &&& md.data_point_count == be_u32_of(m.grid_definition, 6)
}

/// A derived, read-only snapshot of one message: discipline, dates,
/// parameter identity, grid shape, resolution and extent (microdegrees),
/// and the declared data point count.
#[derive(Debug, PartialEq, Eq)]
pub struct MessageMetadata {
    pub discipline: Discipline,
    pub reference_date: GribDate,
    pub forecast_date: GribDate,
    pub variable_name: String,
    pub variable_abbreviation: String,
    pub region: ((i64, i64), (i64, i64)),
    pub location_grid: (usize, usize),
    pub location_resolution: (i64, i64),
    pub units: String,
    pub data_template_number: u16,
    pub data_point_count: usize,
}

/// A full decoded grid. Entry `k` of `values` is the packed integer of
/// grid point `k`, or `None` where the bitmap marks the point absent. The
/// numeric value of a packed integer `raw` is
/// `(R + raw * 2^binary_scale) / 10^decimal_scale` with `R` the IEEE-754
/// binary32 value whose bit pattern is `reference_bits`.
#[derive(Debug, Clone, PartialEq, Eq)]
pub struct DecodedData {
    pub reference_bits: u32,
    pub binary_scale: i16,
    pub decimal_scale: i16,
    pub values: Vec<Option<u64>>,
}

/// One decoded value: a packed integer and the scale parameters that turn
/// it into a numeric value, as in `DecodedData`.
#[derive(Debug, Clone, Copy, PartialEq, Eq, Structural)]
pub struct ScaledValue {
    pub reference_bits: u32,
    pub binary_scale: i16,
    pub decimal_scale: i16,
    pub raw: u64,
}

/// One message and its eight section slots (plus the optional local-use
/// section), all zero-copy views into the backing buffer.
pub struct Message<'a> {
    pub indicator_section: IndicatorSection<'a>,
    pub identification_section: IdentificationSection<'a>,
    pub local_use_section: Option<LocalUseSection<'a>>,
    pub grid_definition_section: GridDefinitionSection<'a>,
    pub product_definition_section: ProductDefinitionSection<'a>,
    pub data_representation_section: DataRepresentationSection<'a>,
    pub bitmap_section: BitmapSection<'a>,
    pub data_section: DataSection<'a>,
    pub end_section: EndSection<'a>,
}

impl<'a> View for Message<'a> {
    type V = MessageView;

    closed spec fn view(&self) -> MessageView {
        MessageView {
            indicator: self.indicator_section@,
            identification: self.identification_section@,
            local_use: match self.local_use_section {
                Some(l) => Some(l@),
                None => None,
            },
            grid_definition: self.grid_definition_section@,
            product_definition: self.product_definition_section@,
            data_representation: self.data_representation_section@,
            bitmap: self.bitmap_section@,
            data: self.data_section@,
            end: self.end_section@,
        }
    }
}

impl<'a> Message<'a> {
    /// Structural well-formedness of every section slot.
    pub open spec fn wf(&self) -> bool {
        &&& self.indicator_section.wf()
        &&& self.identification_section.wf()
        &&& match self.local_use_section {
            Some(l) => l.wf(),
            None => true,
        }
        &&& self.grid_definition_section.wf()
        &&& self.product_definition_section.wf()
        &&& self.data_representation_section.wf()
        &&& self.bitmap_section.wf()
        &&& self.data_section.wf()
        &&& self.end_section.wf()
    }

    /// Drives the section framework across the buffer from `offset`,
    /// filling the eight section slots; all-or-nothing: no partial message
    /// is ever returned.
    #[verifier::rlimit(100)]
    #[verifier::spinoff_prover]
    pub fn parse(data: &'a [u8], offset: usize) -> (r: Result<Message<'a>, GribError>)
        ensures
            r is Ok <==> spec_parse(data@, offset as int) is Ok,
            r matches Ok(m) ==> m@ == spec_parse(data@, offset as int)->Ok_0 && m.wf(),
            r matches Err(e) ==> Err::<MessageView, GribError>(e) == spec_parse(
                data@,
                offset as int,
            ),
    {
        let buffer_len = data.len();
        let mut cur = offset;
        proof {
            assert(buffer_len == data@.len());
        }
        let indicator_section = match Section::from_data(data, cur) {
            Ok(Section::Indicator(x)) => x,
            Ok(_) => {
                return Err(GribError::IncompleteMessage);
            },
            Err(e) => {
                return Err(e);
            },
        };
        cur = cur + indicator_section.len();
        let identification_section = match Section::from_data(data, cur) {
            Ok(Section::Identification(x)) => x,
            Ok(_) => {
                return Err(GribError::IncompleteMessage);
            },
            Err(e) => {
                return Err(e);
            },
        };
        cur = cur + identification_section.len();
        let local_use_section = match Section::from_data(data, cur) {
            Ok(Section::LocalUse(x)) => {
                cur = cur + x.len();
                Some(x)
            },
            Ok(_) => None,
            Err(e) => {
                return Err(e);
            },
        };
        let grid_definition_section = match Section::from_data(data, cur) {
            Ok(Section::GridDefinition(x)) => x,
            Ok(_) => {
                return Err(GribError::IncompleteMessage);
            },
            Err(e) => {
                return Err(e);
            },
        };
        cur = cur + grid_definition_section.len();
        let product_definition_section = match Section::from_data(data, cur) {
            Ok(Section::ProductDefinition(x)) => x,
            Ok(_) => {
                return Err(GribError::IncompleteMessage);
            },
            Err(e) => {
                return Err(e);
            },
        };
        cur = cur + product_definition_section.len();
        let data_representation_section = match Section::from_data(data, cur) {
            Ok(Section::DataRepresentation(x)) => x,
            Ok(_) => {
                return Err(GribError::IncompleteMessage);
            },
            Err(e) => {
                return Err(e);
            },
        };
        cur = cur + data_representation_section.len();
        let bitmap_section = match Section::from_data(data, cur) {
            Ok(Section::Bitmap(x)) => x,
            Ok(_) => {
                return Err(GribError::IncompleteMessage);
            },
            Err(e) => {
                return Err(e);
            },
        };
        cur = cur + bitmap_section.len();
        let data_section = match Section::from_data(data, cur) {
            Ok(Section::Data(x)) => x,
            Ok(_) => {
                return Err(GribError::IncompleteMessage);
            },
            Err(e) => {
                return Err(e);
            },
        };
        cur = cur + data_section.len();
        let end_section = match Section::from_data(data, cur) {
            Ok(Section::End(x)) => x,
            Ok(_) => {
                return Err(GribError::IncompleteMessage);
            },
            Err(e) => {
                return Err(e);
            },
        };
        cur = cur + end_section.len();
        if indicator_section.total_length() != (cur - offset) as u64 {
            return Err(GribError::MalformedSection);
        }
        Ok(
            Message {
                indicator_section,
                identification_section,
                local_use_section,
                grid_definition_section,
                product_definition_section,
                data_representation_section,
                bitmap_section,
                data_section,
                end_section,
            },
        )
    }

    /// The declared total byte length of the message.
    pub fn len(&self) -> (r: usize)
        requires
            self.wf(),
        ensures
            self@.total_len() <= usize::MAX ==> r == self@.total_len(),
    {
        self.indicator_section.total_length() as usize
    }

    /// The discipline of the message's data.
    pub fn discipline(&self) -> (r: Discipline)
        requires
            self.wf(),
        ensures
            r == Discipline::spec_from_value(self@.indicator[6]),
    {
        self.indicator_section.discipline()
    }

    /// Resolves the message's (discipline, category, number) triple against
    /// the parameter tables. `UnsupportedTemplate` when the product template
    /// is not implemented; `UnknownParameter` when the triple is absent from
    /// every table.
    pub fn parameter(&self) -> (r: Result<Parameter, GribError>)
        requires
            self.wf(),
        ensures
            r is Ok <==> spec_parameter_of(self@) is Some,
            r matches Ok(p) ==> (p.name@, p.abbrev@, p.unit@) == spec_parameter_of(
                self@,
            ).unwrap(),
            r matches Err(e) ==> if spec_product_template_of(self@) is Unsupported {
                e matches GribError::UnsupportedTemplate(_)
            } else {
                e == GribError::UnknownParameter
            },
    {
        let discipline_value = self.indicator_section.discipline_value();
        let template = match self.product_definition_section.product_definition_template(
            discipline_value,
        ) {
            ProductTemplate::HorizontalAnalysisForecast(t) => t,
            ProductTemplate::Unsupported => {
                return Err(
                    GribError::UnsupportedTemplate(
                        "only horizontal analysis/forecast product templates are supported".to_owned(),
                    ),
                );
            },
        };
        match template.parameter() {
            Some(p) => Ok(p),
            None => Err(GribError::UnknownParameter),
        }
    }

    /// The resolved parameter's name.
    pub fn variable_name(&self) -> (r: Result<String, GribError>)
        requires
            self.wf(),
        ensures
            r is Ok <==> spec_parameter_of(self@) is Some,
            r matches Ok(n) ==> n@ == spec_parameter_of(self@).unwrap().0,
            r matches Err(e) ==> if spec_product_template_of(self@) is Unsupported {
                e matches GribError::UnsupportedTemplate(_)
            } else {
                e == GribError::UnknownParameter
            },
    {
        match self.parameter() {
            Ok(p) => Ok(p.name),
            Err(e) => Err(e),
        }
    }

    /// The resolved parameter's abbreviation.
    pub fn variable_abbrev(&self) -> (r: Result<String, GribError>)
        requires
            self.wf(),
        ensures
            r is Ok <==> spec_parameter_of(self@) is Some,
            r matches Ok(a) ==> a@ == spec_parameter_of(self@).unwrap().1,
            r matches Err(e) ==> if spec_product_template_of(self@) is Unsupported {
                e matches GribError::UnsupportedTemplate(_)
            } else {
                e == GribError::UnknownParameter
            },
    {
        match self.parameter() {
            Ok(p) => Ok(p.abbrev),
            Err(e) => Err(e),
        }
    }

    /// The reference date and time of the message (UTC).
    pub fn reference_date(&self) -> (r: GribDate)
        requires
            self.wf(),
        ensures
            r == spec_reference_date(self@.identification),
    {
        self.identification_section.reference_date()
    }

    /// The forecast date and time: the reference date advanced by the
    /// product template's forecast offset.
    pub fn forecast_date(&self) -> (r: Result<GribDate, GribError>)
        requires
            self.wf(),
        ensures
            r is Ok <==> spec_forecast_date_of(self@) is Some,
            r matches Ok(d) ==> Some(d) == spec_forecast_date_of(self@),
            r matches Err(e) ==> e matches GribError::UnsupportedTemplate(_),
    {
        let discipline_value = self.indicator_section.discipline_value();
        let template = match self.product_definition_section.product_definition_template(
            discipline_value,
        ) {
            ProductTemplate::HorizontalAnalysisForecast(t) => t,
            ProductTemplate::Unsupported => {
                return Err(
                    GribError::UnsupportedTemplate(
                        "only horizontal analysis/forecast product templates are supported".to_owned(),
                    ),
                );
            },
        };
        let reference = self.identification_section.reference_date();
        match template.forecast_datetime(&reference) {
            Some(d) => Ok(d),
            None => Err(
                GribError::UnsupportedTemplate(
                    "the forecast time unit is outside the implemented set".to_owned(),
                ),
            ),
        }
    }

    /// The derived metadata snapshot of the message. Pure: the result is a
    /// function of the message's bytes alone, so repeated calls return
    /// identical values.
    pub fn metadata(&self) -> (r: Result<MessageMetadata, GribError>)
        requires
            self.wf(),
        ensures
            r is Ok <==> spec_metadata_ok(self@),
            r matches Ok(md) ==> spec_metadata_matches(self@, md),
            r matches Err(e) ==> if !(spec_grid_template_of(self@) is RegularLatLng) || !(
            spec_product_template_of(self@) is HorizontalAnalysisForecast) {
                e matches GribError::UnsupportedTemplate(_)
            } else if spec_parameter_of(self@) is None {
                e == GribError::UnknownParameter
            } else {
                e matches GribError::UnsupportedTemplate(_)
            },
    {
        let discipline_value = self.indicator_section.discipline_value();
        let discipline = Discipline::from_value(discipline_value);
        let reference_date = self.identification_section.reference_date();
        let grid_template = match self.grid_definition_section.grid_definition_template() {
            GridDefinitionTemplate::RegularLatLng(t) => t,
            GridDefinitionTemplate::Unsupported => {
                return Err(
                    GribError::UnsupportedTemplate(
                        "only regular latitude-longitude grid templates are supported".to_owned(),
                    ),
                );
            },
        };
        let product_template = match self.product_definition_section.product_definition_template(
            discipline_value,
        ) {
            ProductTemplate::HorizontalAnalysisForecast(t) => t,
            ProductTemplate::Unsupported => {
                return Err(
                    GribError::UnsupportedTemplate(
                        "only horizontal analysis/forecast product templates are supported".to_owned(),
                    ),
                );
            },
        };
        let parameter = match product_template.parameter() {
            Some(p) => p,
            None => {
                return Err(GribError::UnknownParameter);
            },
        };
        let forecast_date = match product_template.forecast_datetime(&reference_date) {
            Some(d) => d,
            None => {
                return Err(
                    GribError::UnsupportedTemplate(
                        "the forecast time unit is outside the implemented set".to_owned(),
                    ),
                );
            },
        };
        let data_template_number =
            self.data_representation_section.data_representation_template_number();
        let data_point_count = self.grid_definition_section.data_point_count();
        Ok(
            MessageMetadata {
                discipline,
                reference_date,
                forecast_date,
                variable_name: parameter.name,
                variable_abbreviation: parameter.abbrev,
                region: (grid_template.start(), grid_template.end()),
                location_grid: (
                    grid_template.latitude_count(),
                    grid_template.longitude_count(),
                ),
                location_resolution: (
                    grid_template.latitude_resolution(),
                    grid_template.longitude_resolution(),
                ),
                units: parameter.unit,
                data_template_number,
                data_point_count,
            },
        )
    }

    /// Decodes the whole grid: unpacks the declared number of packed
    /// values and spreads them over the grid points through the bitmap.
    pub fn data(&self) -> (r: Result<DecodedData, GribError>)
        requires
            self.wf(),
        ensures
            r is Ok <==> spec_can_decode(self@),
            r matches Ok(d) ==> (spec_drs_template_of(self@)
                matches DataRepresentationTemplate::SimplePacking(t) ==> d.reference_bits
                == t.reference_bits && d.binary_scale == t.binary_scale && d.decimal_scale
                == t.decimal_scale) && d.values@ == spec_decoded_values(self@) && d.values@.len()
                == spec_grid_count(self@),
            r matches Err(e) ==> if !(spec_drs_template_of(self@) is SimplePacking) {
                e matches GribError::UnsupportedTemplate(_)
            } else {
                e == GribError::MalformedSection
            },
    {
        let template = match self.data_representation_section.data_representation_template() {
            DataRepresentationTemplate::SimplePacking(t) => t,
            DataRepresentationTemplate::Unsupported => {
                return Err(
                    GribError::UnsupportedTemplate(
                        "only simple packing data representation templates are supported".to_owned(),
                    ),
                );
            },
        };
        let compact_count = self.data_representation_section.data_point_count();
        let raw = self.data_section.raw_bit_data();
        let compact = match template.unpack_all(raw, compact_count) {
            Ok(v) => v,
            Err(e) => {
                return Err(e);
            },
        };
        proof {
            assert(compact@ =~= spec_compact_values(self@));
        }
        let grid_points = self.grid_definition_section.data_point_count();
        let values = self.bitmap_section.map_data(compact, grid_points);
        Ok(
            DecodedData {
                reference_bits: template.reference_bits,
                binary_scale: template.binary_scale,
                decimal_scale: template.decimal_scale,
                values,
            },
        )
    }

    /// The (latitude, longitude) of every grid point, microdegrees, in
    /// decode order.
    pub fn data_locations(&self) -> (r: Result<Vec<(i64, i64)>, GribError>)
        requires
            self.wf(),
        ensures
            r is Ok <==> spec_grid_template_of(self@) is RegularLatLng,
            r matches Ok(v) ==> (spec_grid_template_of(self@)
                matches GridDefinitionTemplate::RegularLatLng(t) ==> v@.len() == t.count()
                && forall|k: int|
                0 <= k < v@.len() ==> (#[trigger] v@[k]).0 == t.lat_at(k / t.ni as int) && v@[k].1
                    == t.lon_at(k % t.ni as int)),
            r matches Err(e) ==> e matches GribError::UnsupportedTemplate(_),
    {
        let grid_template = match self.grid_definition_section.grid_definition_template() {
            GridDefinitionTemplate::RegularLatLng(t) => t,
            GridDefinitionTemplate::Unsupported => {
                return Err(
                    GribError::UnsupportedTemplate(
                        "only regular latitude-longitude grid templates are supported".to_owned(),
                    ),
                );
            },
        };
        Ok(grid_template.locations())
    }

    /// Looks one grid point up by coordinate (microdegrees): rounds the
    /// coordinate to the grid, finds its position in the packed data
    /// through the bitmap, and decodes exactly that value.
    pub fn data_at_location(&self, location: &(i64, i64)) -> (r: Result<ScaledValue, GribError>)
        requires
            self.wf(),
        ensures
            !(spec_grid_template_of(self@) is RegularLatLng) ==> (r matches Err(e)
                && e matches GribError::UnsupportedTemplate(_)),
            spec_grid_template_of(self@) matches GridDefinitionTemplate::RegularLatLng(t)
                ==> match t.spec_index_for(location.0 as int, location.1 as int) {
                Err(e0) => r == Err::<ScaledValue, GribError>(e0),
                Ok(idx) => match spec_drs_template_of(self@) {
                    DataRepresentationTemplate::Unsupported => (r matches Err(e)
                        && e matches GribError::UnsupportedTemplate(_)),
                    DataRepresentationTemplate::SimplePacking(p) => match spec_data_index(
                        self@.bitmap,
                        idx,
                    ) {
                        None => r == Err::<ScaledValue, GribError>(GribError::NoDataAtIndex),
                        Some(d) => if p.spec_can_unpack(
                            spec_data_payload(self@).len() as int,
                            d + 1,
                        ) {
                            r matches Ok(sv) && sv.reference_bits == p.reference_bits
                                && sv.binary_scale == p.binary_scale && sv.decimal_scale
                                == p.decimal_scale && sv.raw as nat == p.spec_value_at(
                                spec_data_payload(self@),
                                d,
                            )
                        } else {
                            r == Err::<ScaledValue, GribError>(GribError::MalformedSection)
                        },
                    },
                },
            },
    {
        let grid_template = match self.grid_definition_section.grid_definition_template() {
            GridDefinitionTemplate::RegularLatLng(t) => t,
            GridDefinitionTemplate::Unsupported => {
                return Err(
                    GribError::UnsupportedTemplate(
                        "only regular latitude-longitude grid templates are supported".to_owned(),
                    ),
                );
            },
        };
        let location_index = match grid_template.index_for_location(location.0, location.1) {
            Ok(i) => i,
            Err(e) => {
                return Err(e);
            },
        };
        let template = match self.data_representation_section.data_representation_template() {
            DataRepresentationTemplate::SimplePacking(t) => t,
            DataRepresentationTemplate::Unsupported => {
                return Err(
                    GribError::UnsupportedTemplate(
                        "only simple packing data representation templates are supported".to_owned(),
                    ),
                );
            },
        };
        let data_index = match self.bitmap_section.data_index(location_index) {
            Some(d) => d,
            None => {
                return Err(GribError::NoDataAtIndex);
            },
        };
        proof {
            crate::sections::bitmap::lemma_rank_le(
                crate::sections::bitmap::spec_bitmap_bits(self@.bitmap),
                location_index as int,
            );
            assert(data_index <= location_index);
        }
        let raw = self.data_section.raw_bit_data();
        let vals = match template.unpack_range(raw, data_index, data_index + 1) {
            Ok(v) => v,
            Err(e) => {
                return Err(e);
            },
        };
        Ok(
            ScaledValue {
                reference_bits: template.reference_bits,
                binary_scale: template.binary_scale,
                decimal_scale: template.decimal_scale,
                raw: vals[0],
            },
        )
    }
}


/// The views of a sequence of messages, in order.
pub open spec fn views_of<'a>(ms: Seq<Message<'a>>) -> Seq<MessageView> {
    ms.map_values(|m: Message<'a>| m@)
}

/// The messages that best-effort streaming yields from `off` on: one
/// message parsed at the running offset after another, stopped (without an
/// error) at the first offset where no complete message parses.
pub open spec fn spec_parse_all(s: Seq<u8>, off: int) -> Seq<MessageView>
    decreases s.len() - off,
{
    if off < 0 || off >= s.len() {
        seq![]
    } else {
        match spec_parse(s, off) {
            Ok(m) => if 1 <= m.total_len() && off + m.total_len() <= s.len() {
                seq![m] + spec_parse_all(s, off + m.total_len())
            } else {
                seq![m]
            },
            Err(_) => seq![],
        }
    }
}

impl<'a> Message<'a> {
    /// Repeatedly parses one message at the cumulative consumed offset and
    /// stops, without failing the call, at the first construction error:
    /// trailing incomplete or garbage bytes are silently dropped.
    pub fn parse_all(data: &'a [u8]) -> (r: Vec<Message<'a>>)
        ensures
            views_of(r@) == spec_parse_all(data@, 0),
            forall|k: int| 0 <= k < r@.len() ==> (#[trigger] r@[k]).wf(),
    {
        let dl = data.len();
        let mut messages: Vec<Message<'a>> = Vec::new();
        let mut offset: usize = 0;
        while offset < dl
            invariant_except_break
                offset <= dl,
                dl == data@.len(),
                spec_parse_all(data@, 0) =~= views_of(messages@) + spec_parse_all(
                    data@,
                    offset as int,
                ),
                forall|k: int| 0 <= k < messages@.len() ==> (#[trigger] messages@[k]).wf(),
            ensures
                views_of(messages@) == spec_parse_all(data@, 0),
                forall|k: int| 0 <= k < messages@.len() ==> (#[trigger] messages@[k]).wf(),
            decreases dl - offset,
        {
            match Message::parse(data, offset) {
                Ok(message) => {
                    proof {
                        lemma_spec_parse_bounds(data@, offset as int);
                    }
                    let l = message.len();
                    proof {
                        assert(views_of(messages@.push(message)) =~= views_of(messages@).push(
                            message@,
                        ));
                        assert(spec_parse_all(data@, 0) =~= views_of(messages@.push(message))
                            + spec_parse_all(data@, offset + l));
                    }
                    offset = offset + l;
                    messages.push(message);
                },
                Err(_) => {
                    proof {
                        assert(views_of(messages@) =~= spec_parse_all(data@, 0));
                    }
                    break;
                },
            }
        }
        proof {
            assert(views_of(messages@) =~= spec_parse_all(data@, 0));
        }
        messages
    }

    /// The resolved parameter of each message, with a per-message failure
    /// mapped to `None` rather than failing the batch.
    pub fn parameters(messages: Vec<Message<'a>>) -> (r: Vec<Option<Parameter>>)
        requires
            forall|k: int| 0 <= k < messages@.len() ==> (#[trigger] messages@[k]).wf(),
        ensures
            r@.len() == messages@.len(),
            forall|k: int|
                0 <= k < r@.len() ==> ((#[trigger] r@[k]) is Some <==> spec_parameter_of(
                    messages@[k]@,
                ) is Some),
            forall|k: int|
                0 <= k < r@.len() ==> ((#[trigger] r@[k]) matches Some(p) ==> (
                p.name@,
                p.abbrev@,
                p.unit@,
                ) == spec_parameter_of(messages@[k]@).unwrap()),
    {
        let mut out: Vec<Option<Parameter>> = Vec::new();
        let mut k: usize = 0;
        while k < messages.len()
            invariant
                k <= messages@.len(),
                out@.len() == k,
                forall|j: int| 0 <= j < messages@.len() ==> (#[trigger] messages@[j]).wf(),
                forall|j: int|
                    0 <= j < k ==> ((#[trigger] out@[j]) is Some <==> spec_parameter_of(
                        messages@[j]@,
                    ) is Some),
                forall|j: int|
                    0 <= j < k ==> ((#[trigger] out@[j]) matches Some(p) ==> (
                    p.name@,
                    p.abbrev@,
                    p.unit@,
                    ) == spec_parameter_of(messages@[j]@).unwrap()),
            decreases messages@.len() - k,
        {
            let m = vstd::slice::slice_index_get(messages.as_slice(), k);
            match m.parameter() {
                Ok(p) => out.push(Some(p)),
                Err(_) => out.push(None),
            }
            k += 1;
        }
        out
    }

    /// The resolved parameter name of each message, `None` where
    /// resolution fails.
    pub fn variable_names(messages: Vec<Message<'a>>) -> (r: Vec<Option<String>>)
        requires
            forall|k: int| 0 <= k < messages@.len() ==> (#[trigger] messages@[k]).wf(),
        ensures
            r@.len() == messages@.len(),
            forall|k: int|
                0 <= k < r@.len() ==> ((#[trigger] r@[k]) is Some <==> spec_parameter_of(
                    messages@[k]@,
                ) is Some),
            forall|k: int|
                0 <= k < r@.len() ==> ((#[trigger] r@[k]) matches Some(n) ==> n@
                    == spec_parameter_of(messages@[k]@).unwrap().0),
    {
        let ghost views = messages@;
        let params = Message::parameters(messages);
        let mut out: Vec<Option<String>> = Vec::new();
        let mut k: usize = 0;
        while k < params.len()
            invariant
                k <= params@.len(),
                out@.len() == k,
                params@.len() == views.len(),
                forall|j: int|
                    0 <= j < params@.len() ==> ((#[trigger] params@[j]) is Some
                        <==> spec_parameter_of(views[j]@) is Some),
                forall|j: int|
                    0 <= j < params@.len() ==> ((#[trigger] params@[j]) matches Some(p) ==> (
                    p.name@,
                    p.abbrev@,
                    p.unit@,
                    ) == spec_parameter_of(views[j]@).unwrap()),
                forall|j: int|
                    0 <= j < k ==> ((#[trigger] out@[j]) is Some <==> spec_parameter_of(
                        views[j]@,
                    ) is Some),
                forall|j: int|
                    0 <= j < k ==> ((#[trigger] out@[j]) matches Some(n) ==> n@
                        == spec_parameter_of(views[j]@).unwrap().0),
            decreases params@.len() - k,
        {
            match vstd::slice::slice_index_get(params.as_slice(), k) {
                Some(p) => out.push(Some(p.name.clone())),
                None => out.push(None),
            }
            k += 1;
        }
        out
    }

    /// The resolved parameter abbreviation of each message, `None` where
    /// resolution fails.
    pub fn variable_abbrevs(messages: Vec<Message<'a>>) -> (r: Vec<Option<String>>)
        requires
            forall|k: int| 0 <= k < messages@.len() ==> (#[trigger] messages@[k]).wf(),
        ensures
            r@.len() == messages@.len(),
            forall|k: int|
                0 <= k < r@.len() ==> ((#[trigger] r@[k]) is Some <==> spec_parameter_of(
                    messages@[k]@,
                ) is Some),
            forall|k: int|
                0 <= k < r@.len() ==> ((#[trigger] r@[k]) matches Some(a) ==> a@
                    == spec_parameter_of(messages@[k]@).unwrap().1),
    {
        let ghost views = messages@;
        let params = Message::parameters(messages);
        let mut out: Vec<Option<String>> = Vec::new();
        let mut k: usize = 0;
        while k < params.len()
            invariant
                k <= params@.len(),
                out@.len() == k,
                params@.len() == views.len(),
                forall|j: int|
                    0 <= j < params@.len() ==> ((#[trigger] params@[j]) is Some
                        <==> spec_parameter_of(views[j]@) is Some),
                forall|j: int|
                    0 <= j < params@.len() ==> ((#[trigger] params@[j]) matches Some(p) ==> (
                    p.name@,
                    p.abbrev@,
                    p.unit@,
                    ) == spec_parameter_of(views[j]@).unwrap()),
                forall|j: int|
                    0 <= j < k ==> ((#[trigger] out@[j]) is Some <==> spec_parameter_of(
                        views[j]@,
                    ) is Some),
                forall|j: int|
                    0 <= j < k ==> ((#[trigger] out@[j]) matches Some(a) ==> a@
                        == spec_parameter_of(views[j]@).unwrap().1),
            decreases params@.len() - k,
        {
            match vstd::slice::slice_index_get(params.as_slice(), k) {
                Some(p) => out.push(Some(p.abbrev.clone())),
                None => out.push(None),
            }
            k += 1;
        }
        out
    }

    /// The unit of each message's resolved parameter, `None` where
    /// resolution fails.
    pub fn units(messages: Vec<Message<'a>>) -> (r: Vec<Option<String>>)
        requires
            forall|k: int| 0 <= k < messages@.len() ==> (#[trigger] messages@[k]).wf(),
        ensures
            r@.len() == messages@.len(),
            forall|k: int|
                0 <= k < r@.len() ==> ((#[trigger] r@[k]) is Some <==> spec_parameter_of(
                    messages@[k]@,
                ) is Some),
            forall|k: int|
                0 <= k < r@.len() ==> ((#[trigger] r@[k]) matches Some(u) ==> u@
                    == spec_parameter_of(messages@[k]@).unwrap().2),
    {
        let ghost views = messages@;
        let params = Message::parameters(messages);
        let mut out: Vec<Option<String>> = Vec::new();
        let mut k: usize = 0;
        while k < params.len()
            invariant
                k <= params@.len(),
                out@.len() == k,
                params@.len() == views.len(),
                forall|j: int|
                    0 <= j < params@.len() ==> ((#[trigger] params@[j]) is Some
                        <==> spec_parameter_of(views[j]@) is Some),
                forall|j: int|
                    0 <= j < params@.len() ==> ((#[trigger] params@[j]) matches Some(p) ==> (
                    p.name@,
                    p.abbrev@,
                    p.unit@,
                    ) == spec_parameter_of(views[j]@).unwrap()),
                forall|j: int|
                    0 <= j < k ==> ((#[trigger] out@[j]) is Some <==> spec_parameter_of(
                        views[j]@,
                    ) is Some),
                forall|j: int|
                    0 <= j < k ==> ((#[trigger] out@[j]) matches Some(u) ==> u@
                        == spec_parameter_of(views[j]@).unwrap().2),
            decreases params@.len() - k,
        {
            match vstd::slice::slice_index_get(params.as_slice(), k) {
                Some(p) => out.push(Some(p.unit.clone())),
                None => out.push(None),
            }
            k += 1;
        }
        out
    }

    /// The forecast date of each message, `None` where the product
    /// template or its time unit is not implemented.
    pub fn forecast_dates(messages: Vec<Message<'a>>) -> (r: Vec<Option<GribDate>>)
        requires
            forall|k: int| 0 <= k < messages@.len() ==> (#[trigger] messages@[k]).wf(),
        ensures
            r@.len() == messages@.len(),
            forall|k: int|
                0 <= k < r@.len() ==> #[trigger] r@[k] == spec_forecast_date_of(messages@[k]@),
    {
        let mut out: Vec<Option<GribDate>> = Vec::new();
        let mut k: usize = 0;
        while k < messages.len()
            invariant
                k <= messages@.len(),
                out@.len() == k,
                forall|j: int| 0 <= j < messages@.len() ==> (#[trigger] messages@[j]).wf(),
                forall|j: int|
                    0 <= j < k ==> #[trigger] out@[j] == spec_forecast_date_of(messages@[j]@),
            decreases messages@.len() - k,
        {
            let m = vstd::slice::slice_index_get(messages.as_slice(), k);
            match m.forecast_date() {
                Ok(d) => out.push(Some(d)),
                Err(_) => out.push(None),
            }
            k += 1;
        }
        out
    }
}

/// `metadata` is pure: any two metadata records that the contract of
/// `metadata` admits for one and the same message agree in every field.
pub proof fn lemma_metadata_pure(m: MessageView, md1: MessageMetadata, md2: MessageMetadata)
    requires
        spec_metadata_ok(m),
        spec_metadata_matches(m, md1),
        spec_metadata_matches(m, md2),
    ensures
        md1.discipline == md2.discipline,
        md1.reference_date == md2.reference_date,
        md1.forecast_date == md2.forecast_date,
        md1.variable_name@ == md2.variable_name@,
        md1.variable_abbreviation@ == md2.variable_abbreviation@,
        md1.units@ == md2.units@,
        md1.region == md2.region,
        md1.location_grid == md2.location_grid,
        md1.location_resolution == md2.location_resolution,
        md1.data_template_number == md2.data_template_number,
        md1.data_point_count == md2.data_point_count,
{
}

/// For a message without a bitmap, whose grid and representation templates
/// are implemented and whose declared value count equals the grid's point
/// count, point lookup agrees with full decoding: the location of grid
/// point `k` rounds back to index `k`, the bitmap mapping is the identity
/// there, and both the full-grid path and the single-point path yield the
/// packed integer of position `k` of the payload.
#[verifier::rlimit(100)]
#[verifier::spinoff_prover]
pub proof fn lemma_point_lookup_consistent(m: MessageView, k: int)
    requires
        spec_grid_template_of(m) is RegularLatLng,
        spec_can_decode(m),
        !spec_has_bitmap(m.bitmap),
        spec_compact_count(m) == spec_grid_count(m),
        0 <= k < spec_grid_count(m),
    ensures
        spec_decoded_values(m).len() == spec_grid_count(m),
        ({
            let t = spec_grid_template_of(m)->RegularLatLng_0;
            t.spec_index_for(t.lat_at(k / t.ni as int), t.lon_at(k % t.ni as int))
                == Ok::<int, GribError>(k)
        }),
        spec_data_index(m.bitmap, k) == Some(k),
        spec_decoded_values(m)[k] == Some(spec_compact_values(m)[k]),
        spec_compact_values(m)[k] as nat == spec_drs_template_of(
            m,
        )->SimplePacking_0.spec_value_at(spec_data_payload(m), k),
{
    let t = spec_grid_template_of(m)->RegularLatLng_0;
    assert(t.count() == spec_grid_count(m));
    let ni = t.ni as int;
    let nj = t.nj as int;
    vstd::arithmetic::div_mod::lemma_fundamental_div_mod(k, ni);
    vstd::arithmetic::div_mod::lemma_mod_bound(k, ni);
    if k > 0 {
        vstd::arithmetic::div_mod::lemma_div_pos_is_pos(k, ni);
    }
    if k / ni >= nj {
        lemma_mul_inequality(nj, k / ni, ni);
        assert(nj * ni == ni * nj) by (nonlinear_arith);
        assert(false);
    }
    lemma_index_for_location_inverse(t, k / ni, k % ni);
    let p = spec_drs_template_of(m)->SimplePacking_0;
    let n = p.bits_per_value as int;
    let payload = spec_data_payload(m);
    let bits = crate::utils::bit_seq_of(payload);
    assert forall|i: int| 0 <= i < bits.len() implies bits[i] <= 1 by {
        crate::utils::lemma_bit_of_byte_is_binary(payload[i / 8], i % 8);
    };
    lemma_mul_inequality(k + 1, spec_compact_count(m), n);
    vstd::arithmetic::mul::lemma_mul_is_distributive_add_other_way(n, k, 1);
    vstd::arithmetic::mul::lemma_mul_nonnegative(k, n);
    crate::templates::data_representation::lemma_bits_value_bound(bits, k * n, n as nat);
    if n < 64 {
        vstd::arithmetic::power2::lemma_pow2_strictly_increases(n as nat, 64);
    }
    vstd::arithmetic::power2::lemma2_to64();
}

} // verus!
