use vstd::prelude::*;
use crate::error::GribError;
use crate::sections::bitmap::BitmapSection;
use crate::sections::data::DataSection;
use crate::sections::data_representation::DataRepresentationSection;
use crate::sections::end::EndSection;
use crate::sections::grid_definition::GridDefinitionSection;
use crate::sections::identification::IdentificationSection;
use crate::sections::indicator::IndicatorSection;
use crate::sections::local_use::LocalUseSection;
use crate::sections::product_definition::ProductDefinitionSection;
use crate::utils::be_u32_of;
use crate::utils::read_u32_from_bytes;

verus! {

/// Whether the four bytes of `s` at `off` spell the "GRIB" magic.
pub open spec fn spec_is_grib_magic(s: Seq<u8>, off: int) -> bool {
    s[off] == 71 && s[off + 1] == 82 && s[off + 2] == 73 && s[off + 3] == 66
}

/// Whether the four bytes of `s` at `off` spell the "7777" terminator.
pub open spec fn spec_is_end_magic(s: Seq<u8>, off: int) -> bool {
    s[off] == 55 && s[off + 1] == 55 && s[off + 2] == 55 && s[off + 3] == 55
}

/// The least byte length a section of number `n` may declare: enough for
/// its header and its fixed scalar fields.
pub open spec fn section_min_length(n: u8) -> int {
    if n == 1 {
        21
    } else if n == 2 {
        5
    } else if n == 3 {
        14
    } else if n == 4 {
        9
    } else if n == 5 {
        11
    } else if n == 6 {
        6
    } else if n == 7 {
        5
    } else {
        0
    }
}

/// The (section number, byte length) of the section starting at `off`, or
/// `None` when no well-bounded section starts there: too few bytes for its
/// header, a declared length that exceeds the remaining buffer or falls
/// short of the section's fixed fields, or a section number outside the
/// legal set. The indicator section is recognised by its "GRIB" magic and
/// reported as number 0; the end section by "7777", as number 8.
pub open spec fn spec_section_header(s: Seq<u8>, off: int) -> Option<(u8, int)> {
    if off < 0 || off + 4 > s.len() {
        None
    } else if spec_is_grib_magic(s, off) {
        if off + 16 <= s.len() {
            Some((0u8, 16))
        } else {
            None
        }
    } else if spec_is_end_magic(s, off) {
        Some((8u8, 4))
    } else if off + 5 <= s.len() {
        let l = be_u32_of(s, off);
        let n = s[off + 4];
        if 1 <= n <= 7 && section_min_length(n) <= l && off + l <= s.len() {
            Some((n, l))
        } else {
            None
        }
    } else {
        None
    }
}

/// The section number of the section starting at `off`.
pub open spec fn spec_header_number(s: Seq<u8>, off: int) -> u8 {
    spec_section_header(s, off).unwrap().0
}

/// The byte length of the section starting at `off`.
pub open spec fn spec_header_len(s: Seq<u8>, off: int) -> int {
    spec_section_header(s, off).unwrap().1
}

/// One section of a message, bounded and tagged by its section number.
pub enum Section<'a> {
    Indicator(IndicatorSection<'a>),
    Identification(IdentificationSection<'a>),
    LocalUse(LocalUseSection<'a>),
    GridDefinition(GridDefinitionSection<'a>),
    ProductDefinition(ProductDefinitionSection<'a>),
    DataRepresentation(DataRepresentationSection<'a>),
    Bitmap(BitmapSection<'a>),
    Data(DataSection<'a>),
    End(EndSection<'a>),
}

impl<'a> View for Section<'a> {
    type V = Seq<u8>;

    closed spec fn view(&self) -> Seq<u8> {
        match self {
            Section::Indicator(s) => s@,
            Section::Identification(s) => s@,
            Section::LocalUse(s) => s@,
            Section::GridDefinition(s) => s@,
            Section::ProductDefinition(s) => s@,
            Section::DataRepresentation(s) => s@,
            Section::Bitmap(s) => s@,
            Section::Data(s) => s@,
            Section::End(s) => s@,
        }
    }
}

impl<'a> Section<'a> {
    /// The section number this variant stands for (0 for the indicator,
    /// 8 for the end section).
    pub open spec fn spec_number(&self) -> u8 {
        match self {
            Section::Indicator(_) => 0,
            Section::Identification(_) => 1,
            Section::LocalUse(_) => 2,
            Section::GridDefinition(_) => 3,
            Section::ProductDefinition(_) => 4,
            Section::DataRepresentation(_) => 5,
            Section::Bitmap(_) => 6,
            Section::Data(_) => 7,
            Section::End(_) => 8,
        }
    }

    /// Structural well-formedness of the wrapped section.
    pub open spec fn wf(&self) -> bool {
        match self {
            Section::Indicator(s) => s.wf(),
            Section::Identification(s) => s.wf(),
            Section::LocalUse(s) => s.wf(),
            Section::GridDefinition(s) => s.wf(),
            Section::ProductDefinition(s) => s.wf(),
            Section::DataRepresentation(s) => s.wf(),
            Section::Bitmap(s) => s.wf(),
            Section::Data(s) => s.wf(),
            Section::End(s) => s.wf(),
        }
    }

    /// Identifies and bounds the section starting at `offset`: reads its
    /// magic or its four-byte length and one-byte number, validates the
    /// declared length against the remaining buffer, and returns a
    /// zero-copy view of exactly those bytes.
    pub fn from_data(data: &'a [u8], offset: usize) -> (r: Result<Section<'a>, GribError>)
        ensures
            r is Ok <==> spec_section_header(data@, offset as int) is Some,
            r is Err ==> r == Err::<Section<'a>, GribError>(GribError::MalformedSection),
            r matches Ok(sec) ==> {
                &&& sec@ == data@.subrange(
                    offset as int,
                    offset + spec_header_len(data@, offset as int),
                )
                &&& sec.spec_number() == spec_header_number(data@, offset as int)
                &&& sec.wf()
                &&& match sec {
                    Section::Indicator(x) => x@ == sec@,
                    Section::Identification(x) => x@ == sec@,
                    Section::LocalUse(x) => x@ == sec@,
                    Section::GridDefinition(x) => x@ == sec@,
                    Section::ProductDefinition(x) => x@ == sec@,
                    Section::DataRepresentation(x) => x@ == sec@,
                    Section::Bitmap(x) => x@ == sec@,
                    Section::Data(x) => x@ == sec@,
                    Section::End(x) => x@ == sec@,
                }
            },
    {
        if data.len() < 4 || offset > data.len() - 4 {
            return Err(GribError::MalformedSection);
        }
        let b0 = *vstd::slice::slice_index_get(data, offset);
        let b1 = *vstd::slice::slice_index_get(data, offset + 1);
        let b2 = *vstd::slice::slice_index_get(data, offset + 2);
        let b3 = *vstd::slice::slice_index_get(data, offset + 3);
        if b0 == 71 && b1 == 82 && b2 == 73 && b3 == 66 {
            if data.len() - offset < 16 {
                return Err(GribError::MalformedSection);
            }
            let s = vstd::slice::slice_subrange(data, offset, offset + 16);
            return Ok(Section::Indicator(IndicatorSection::new(s)));
        }
        if b0 == 55 && b1 == 55 && b2 == 55 && b3 == 55 {
            let s = vstd::slice::slice_subrange(data, offset, offset + 4);
            return Ok(Section::End(EndSection::new(s)));
        }
        if data.len() - offset < 5 {
            return Err(GribError::MalformedSection);
        }
        let l32 = read_u32_from_bytes(data, offset).unwrap();
        let n = *vstd::slice::slice_index_get(data, offset + 4);
        let min: usize = match n {
            1 => 21,
            2 => 5,
            3 => 14,
            4 => 9,
            5 => 11,
            6 => 6,
            7 => 5,
            _ => {
                return Err(GribError::MalformedSection);
            },
        };
        let l = l32 as usize;
        if l < min || l > data.len() - offset {
            return Err(GribError::MalformedSection);
        }
        let s = vstd::slice::slice_subrange(data, offset, offset + l);
        match n {
            1 => Ok(Section::Identification(IdentificationSection::new(s))),
            2 => Ok(Section::LocalUse(LocalUseSection::new(s))),
            3 => Ok(Section::GridDefinition(GridDefinitionSection::new(s))),
            4 => Ok(Section::ProductDefinition(ProductDefinitionSection::new(s))),
            5 => Ok(Section::DataRepresentation(DataRepresentationSection::new(s))),
            6 => Ok(Section::Bitmap(BitmapSection::new(s))),
            _ => Ok(Section::Data(DataSection::new(s))),
        }
    }

    /// The byte length of the section, as consumed from the buffer.
    pub fn len(&self) -> (r: usize)
        ensures
            r == self@.len(),
    {
        match self {
            Section::Indicator(s) => s.len(),
            Section::Identification(s) => s.len(),
            Section::LocalUse(s) => s.len(),
            Section::GridDefinition(s) => s.len(),
            Section::ProductDefinition(s) => s.len(),
            Section::DataRepresentation(s) => s.len(),
            Section::Bitmap(s) => s.len(),
            Section::Data(s) => s.len(),
            Section::End(s) => s.len(),
        }
    }
}

} // verus!
