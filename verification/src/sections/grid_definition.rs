use vstd::prelude::*;
use crate::templates::grid_definition::GridDefinitionTemplate;
use crate::templates::grid_definition::LatLngTemplate;
use crate::templates::grid_definition::spec_grid_definition_template;
use crate::utils::be_u16_of;
use crate::utils::be_u32_of;
use crate::utils::read_u16_from_bytes;
use crate::utils::read_u32_from_bytes;
use crate::utils::signed_angle;

verus! {

/// The grid definition section: the declared number of data points and the
/// grid definition template that lays them out geographically.
pub struct GridDefinitionSection<'a> {
    data: &'a [u8],
}

impl<'a> View for GridDefinitionSection<'a> {
    type V = Seq<u8>;

    closed spec fn view(&self) -> Seq<u8> {
        self.data@
    }
}

impl<'a> GridDefinitionSection<'a> {
    pub open spec fn wf(&self) -> bool {
        self@.len() >= 14 && self@.len() == be_u32_of(self@, 0) && self@[4] == 3
    }

    pub(crate) fn new(data: &'a [u8]) -> (r: Self)
        ensures
            r@ == data@,
    {
        GridDefinitionSection { data }
    }

    /// The declared number of data points of the grid.
    pub fn data_point_count(&self) -> (r: usize)
        requires
            self.wf(),
        ensures
            r == be_u32_of(self@, 6),
    {
        read_u32_from_bytes(self.data, 6).unwrap() as usize
    }

    /// The grid definition template discriminator.
    pub fn grid_definition_template_number(&self) -> (r: u16)
        requires
            self.wf(),
        ensures
            r == be_u16_of(self@, 12),
    {
        read_u16_from_bytes(self.data, 12).unwrap()
    }

    /// Resolves the template discriminator against the closed set of
    /// implemented grid templates; anything but a well-formed regular
    /// latitude-longitude grid is reported `Unsupported`, not an error.
    pub fn grid_definition_template(&self) -> (r: GridDefinitionTemplate)
        requires
            self.wf(),
        ensures
            r == spec_grid_definition_template(self@),
            r matches GridDefinitionTemplate::RegularLatLng(t) ==> t.wf() && t.count() == be_u32_of(
                self@,
                6,
            ),
    {
        let num = read_u16_from_bytes(self.data, 12).unwrap();
        if num != 0 || self.data.len() < 72 {
            return GridDefinitionTemplate::Unsupported;
        }
        let ni = read_u32_from_bytes(self.data, 30).unwrap();
        let nj = read_u32_from_bytes(self.data, 34).unwrap();
        let la1 = signed_angle(read_u32_from_bytes(self.data, 46).unwrap());
        let lo1 = signed_angle(read_u32_from_bytes(self.data, 50).unwrap());
        let la2 = signed_angle(read_u32_from_bytes(self.data, 55).unwrap());
        let lo2 = signed_angle(read_u32_from_bytes(self.data, 59).unwrap());
        let di = read_u32_from_bytes(self.data, 63).unwrap();
        let dj = read_u32_from_bytes(self.data, 67).unwrap();
        let scan_mode = *vstd::slice::slice_index_get(self.data, 71);
        let count = read_u32_from_bytes(self.data, 6).unwrap();
        let t = LatLngTemplate { ni, nj, la1, lo1, la2, lo2, di, dj, scan_mode };
        if ni < 1 || nj < 1 || di < 1 || di > 0x7FFFFFFF || dj < 1 || dj > 0x7FFFFFFF {
            return GridDefinitionTemplate::Unsupported;
        }
        proof {
            vstd::arithmetic::mul::lemma_mul_upper_bound(
                (nj - 1) as int,
                0xFFFFFFFF,
                dj as int,
                0x7FFFFFFF,
            );
            vstd::arithmetic::mul::lemma_mul_upper_bound(
                (ni - 1) as int,
                0xFFFFFFFF,
                di as int,
                0x7FFFFFFF,
            );
            vstd::arithmetic::mul::lemma_mul_upper_bound(
                ni as int,
                0xFFFFFFFF,
                nj as int,
                0xFFFFFFFF,
            );
        }
        if ((nj - 1) as u64) * (dj as u64) > 4000000000 || ((ni - 1) as u64) * (di as u64)
            > 4000000000 {
            return GridDefinitionTemplate::Unsupported;
        }
        if (ni as u64) * (nj as u64) > 0xFFFFFFFF || (ni as u64) * (nj as u64) != count as u64 {
            return GridDefinitionTemplate::Unsupported;
        }
        GridDefinitionTemplate::RegularLatLng(t)
    }

    pub fn len(&self) -> (r: usize)
        ensures
            r == self@.len(),
    {
        self.data.len()
    }
}

} // verus!
