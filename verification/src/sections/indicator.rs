use vstd::prelude::*;
use crate::sections::section::spec_is_grib_magic;
use crate::utils::be_u64_of;
use crate::utils::read_u64_from_bytes;

verus! {

/// Top-level category of the data carried by one message, from the
/// discipline octet of the indicator section.
#[derive(Debug, Clone, Copy, PartialEq, Eq, Structural)]
pub enum Discipline {
    Meteorological,
    Hydrological,
    LandSurface,
    SpaceProducts,
    Oceanographic,
    Missing,
}

impl Discipline {
    /// The variant encoded by the discipline octet; codes outside the
    /// implemented set are reported as `Missing`.
    pub open spec fn spec_from_value(v: u8) -> Discipline {
        if v == 0 {
            Discipline::Meteorological
        } else if v == 1 {
            Discipline::Hydrological
        } else if v == 2 {
            Discipline::LandSurface
        } else if v == 3 {
            Discipline::SpaceProducts
        } else if v == 10 {
            Discipline::Oceanographic
        } else {
            Discipline::Missing
        }
    }

    pub fn from_value(v: u8) -> (r: Discipline)
        ensures
            r == Discipline::spec_from_value(v),
    {
        match v {
            0 => Discipline::Meteorological,
            1 => Discipline::Hydrological,
            2 => Discipline::LandSurface,
            3 => Discipline::SpaceProducts,
            10 => Discipline::Oceanographic,
            _ => Discipline::Missing,
        }
    }
}

/// The indicator section: the fixed 16-byte header that opens a message
/// with the "GRIB" magic, the discipline, the edition and the total
/// message length.
pub struct IndicatorSection<'a> {
    data: &'a [u8],
}

impl<'a> View for IndicatorSection<'a> {
    type V = Seq<u8>;

    closed spec fn view(&self) -> Seq<u8> {
        self.data@
    }
}

impl<'a> IndicatorSection<'a> {
    pub open spec fn wf(&self) -> bool {
        self@.len() == 16 && spec_is_grib_magic(self@, 0)
    }

    pub(crate) fn new(data: &'a [u8]) -> (r: Self)
        ensures
            r@ == data@,
    {
        IndicatorSection { data }
    }

    /// The declared length in bytes of the whole message, terminator included.
    pub fn total_length(&self) -> (r: u64)
        requires
            self.wf(),
        ensures
            r == be_u64_of(self@, 8),
    {
        read_u64_from_bytes(self.data, 8).unwrap()
    }

    /// The discipline octet.
    pub fn discipline_value(&self) -> (r: u8)
        requires
            self.wf(),
        ensures
            r == self@[6],
    {
        *vstd::slice::slice_index_get(self.data, 6)
    }

    /// The GRIB edition octet.
    pub fn edition(&self) -> (r: u8)
        requires
            self.wf(),
        ensures
            r == self@[7],
    {
        *vstd::slice::slice_index_get(self.data, 7)
    }

    /// The discipline, decoded to its closed set of variants.
    pub fn discipline(&self) -> (r: Discipline)
        requires
            self.wf(),
        ensures
            r == Discipline::spec_from_value(self@[6]),
    {
        Discipline::from_value(self.discipline_value())
    }

    pub fn len(&self) -> (r: usize)
        ensures
            r == self@.len(),
    {
        self.data.len()
    }
}

} // verus!
