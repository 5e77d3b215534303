use vstd::prelude::*;
use vstd::arithmetic::div_mod::lemma_fundamental_div_mod_converse;
use vstd::arithmetic::mul::lemma_mul_inequality;
use vstd::arithmetic::mul::lemma_mul_nonnegative;
use crate::error::GribError;
use crate::utils::be_u16_of;
use crate::utils::be_u32_of;
use crate::utils::signed_angle_of;

verus! {

/// A regular latitude-longitude grid. Angles are integer microdegrees
/// (10^-6 of a degree); `di`/`dj` are the positive grid increments, and the
/// traversal direction along each axis follows from comparing the start
/// and end corners. Enumeration is row-major: all longitudes of the first
/// latitude row, then the next row.
#[derive(Debug, Clone, Copy, PartialEq, Eq, Structural)]
pub struct LatLngTemplate {
    /// Number of points along a latitude row (longitude count).
    pub ni: u32,
    /// Number of latitude rows (latitude count).
    pub nj: u32,
    /// First corner, microdegrees.
    pub la1: i64,
    pub lo1: i64,
    /// Last corner, microdegrees.
    pub la2: i64,
    pub lo2: i64,
    /// Longitude increment, microdegrees.
    pub di: u32,
    /// Latitude increment, microdegrees.
    pub dj: u32,
    /// Raw scanning mode flags of the section.
    pub scan_mode: u8,
}

impl LatLngTemplate {
    /// Validity of the grid description: positive counts and increments,
    /// corners within the 32-bit sign-and-magnitude angle range, a total
    /// extent small enough that every coordinate arithmetic below stays
    /// exact, and a point count that fits the 32-bit count field.
    pub open spec fn wf(&self) -> bool {
        &&& 1 <= self.ni
        &&& 1 <= self.nj
        &&& 1 <= self.di <= 0x7FFFFFFF
        &&& 1 <= self.dj <= 0x7FFFFFFF
        &&& -0x7FFFFFFF <= self.la1 <= 0x7FFFFFFF
        &&& -0x7FFFFFFF <= self.lo1 <= 0x7FFFFFFF
        &&& -0x7FFFFFFF <= self.la2 <= 0x7FFFFFFF
        &&& -0x7FFFFFFF <= self.lo2 <= 0x7FFFFFFF
        &&& (self.nj - 1) * self.dj <= 4000000000
        &&& (self.ni - 1) * self.di <= 4000000000
        &&& self.ni * self.nj <= 0xFFFFFFFF
    }

    /// The latitude of row `j`: rows step away from the first corner
    /// towards the last one.
    pub open spec fn lat_at(&self, j: int) -> int {
        if self.la2 >= self.la1 {
            self.la1 + j * self.dj
        } else {
            self.la1 - j * self.dj
        }
    }

    /// The longitude of column `i`.
    pub open spec fn lon_at(&self, i: int) -> int {
        if self.lo2 >= self.lo1 {
            self.lo1 + i * self.di
        } else {
            self.lo1 - i * self.di
        }
    }

    /// The number of grid points.
    pub open spec fn count(&self) -> int {
        self.ni * self.nj
    }

    /// The linear index of the grid point nearest to `(lat, lon)`: each
    /// coordinate is rounded to the nearest grid step; a rounded point
    /// outside the grid extent is `OutOfBounds`.
    pub open spec fn spec_index_for(&self, lat: int, lon: int) -> Result<int, GribError> {
        if lat < -2000000000000 || lat > 2000000000000 || lon < -2000000000000 || lon
            > 2000000000000 {
            Err(GribError::OutOfBounds)
        } else {
            let jn = (if self.la2 >= self.la1 {
                lat - self.la1
            } else {
                self.la1 - lat
            }) + self.dj as int / 2;
            let iq = (if self.lo2 >= self.lo1 {
                lon - self.lo1
            } else {
                self.lo1 - lon
            }) + self.di as int / 2;
            if jn < 0 || iq < 0 {
                Err(GribError::OutOfBounds)
            } else {
                let j = jn / self.dj as int;
                let i = iq / self.di as int;
                if j >= self.nj || i >= self.ni {
                    Err(GribError::OutOfBounds)
                } else {
                    Ok(j * self.ni + i)
                }
            }
        }
    }

    pub fn latitude_count(&self) -> (r: usize)
        ensures
            r == self.nj,
    {
        self.nj as usize
    }

    pub fn longitude_count(&self) -> (r: usize)
        ensures
            r == self.ni,
    {
        self.ni as usize
    }

    /// The first corner of the grid, microdegrees.
    pub fn start(&self) -> (r: (i64, i64))
        ensures
            r == (self.la1, self.lo1),
    {
        (self.la1, self.lo1)
    }

    /// The last corner of the grid, microdegrees.
    pub fn end(&self) -> (r: (i64, i64))
        ensures
            r == (self.la2, self.lo2),
    {
        (self.la2, self.lo2)
    }

    /// The latitude increment, microdegrees.
    pub fn latitude_resolution(&self) -> (r: i64)
        ensures
            r == self.dj,
    {
        self.dj as i64
    }

    /// The longitude increment, microdegrees.
    pub fn longitude_resolution(&self) -> (r: i64)
        ensures
            r == self.di,
    {
        self.di as i64
    }

    /// Every grid point's (latitude, longitude), microdegrees, in the
    /// row-major order of the decoded data array.
    pub fn locations(&self) -> (r: Vec<(i64, i64)>)
        requires
            self.wf(),
        ensures
            r@.len() == self.count(),
            forall|k: int|
                0 <= k < r@.len() ==> (#[trigger] r@[k]).0 == self.lat_at(k / self.ni as int)
                    && r@[k].1 == self.lon_at(k % self.ni as int),
    {
        let ni = self.ni as usize;
        let nj = self.nj as usize;
        let asc_lat = self.la2 >= self.la1;
        let asc_lon = self.lo2 >= self.lo1;
        let mut out: Vec<(i64, i64)> = Vec::new();
        let mut j: usize = 0;
        while j < nj
            invariant
                self.wf(),
                ni == self.ni,
                nj == self.nj,
                asc_lat == (self.la2 >= self.la1),
                asc_lon == (self.lo2 >= self.lo1),
                j <= nj,
                out@.len() == j * ni,
                forall|k: int|
                    0 <= k < out@.len() ==> (#[trigger] out@[k]).0 == self.lat_at(
                        k / self.ni as int,
                    ) && out@[k].1 == self.lon_at(k % self.ni as int),
            decreases nj - j,
        {
            proof {
                lemma_mul_inequality(j as int, (nj - 1) as int, self.dj as int);
                lemma_mul_nonnegative(j as int, self.dj as int);
            }
            let lat: i64 = if asc_lat {
                self.la1 + (j as i64) * (self.dj as i64)
            } else {
                self.la1 - (j as i64) * (self.dj as i64)
            };
            let mut i: usize = 0;
            while i < ni
                invariant
                    self.wf(),
                    ni == self.ni,
                    nj == self.nj,
                    asc_lon == (self.lo2 >= self.lo1),
                    j < nj,
                    i <= ni,
                    lat == self.lat_at(j as int),
                    out@.len() == j * ni + i,
                    forall|k: int|
                        0 <= k < out@.len() ==> (#[trigger] out@[k]).0 == self.lat_at(
                            k / self.ni as int,
                        ) && out@[k].1 == self.lon_at(k % self.ni as int),
                decreases ni - i,
            {
                proof {
                    lemma_mul_inequality(i as int, (ni - 1) as int, self.di as int);
                    lemma_mul_nonnegative(i as int, self.di as int);
                }
                let lon: i64 = if asc_lon {
                    self.lo1 + (i as i64) * (self.di as i64)
                } else {
                    self.lo1 - (i as i64) * (self.di as i64)
                };
                proof {
                    lemma_fundamental_div_mod_converse(
                        j * ni + i,
                        ni as int,
                        j as int,
                        i as int,
                    );
                }
                out.push((lat, lon));
                i += 1;
            }
            proof {
                assert((j + 1) * ni == j * ni + ni) by (nonlinear_arith);
            }
            j += 1;
        }
        proof {
            assert(nj * ni == self.ni * self.nj) by (nonlinear_arith)
                requires
                    ni == self.ni,
                    nj == self.nj,
            ;
        }
        out
    }

    /// Rounds `(lat, lon)` (microdegrees) to the nearest grid step and
    /// returns the linear index of that grid point, or `OutOfBounds` when
    /// the rounded point lies outside the grid extent.
    pub fn index_for_location(&self, lat: i64, lon: i64) -> (r: Result<usize, GribError>)
        requires
            self.wf(),
        ensures
            match r {
                Ok(k) => self.spec_index_for(lat as int, lon as int) == Ok::<int, GribError>(
                    k as int,
                ),
                Err(e) => self.spec_index_for(lat as int, lon as int) == Err::<int, GribError>(e),
            },
            r matches Ok(k) ==> k < 0xFFFFFFFFusize,
    {
        if lat < -2000000000000 || lat > 2000000000000 || lon < -2000000000000 || lon
            > 2000000000000 {
            return Err(GribError::OutOfBounds);
        }
        let jn: i64 = (if self.la2 >= self.la1 {
            lat - self.la1
        } else {
            self.la1 - lat
        }) + (self.dj / 2) as i64;
        let iq: i64 = (if self.lo2 >= self.lo1 {
            lon - self.lo1
        } else {
            self.lo1 - lon
        }) + (self.di / 2) as i64;
        if jn < 0 || iq < 0 {
            return Err(GribError::OutOfBounds);
        }
        let j = (jn as u64) / (self.dj as u64);
        let i = (iq as u64) / (self.di as u64);
        if j >= self.nj as u64 || i >= self.ni as u64 {
            return Err(GribError::OutOfBounds);
        }
        proof {
            assert(j * self.ni + i < self.nj * self.ni) by (nonlinear_arith)
                requires
                    0 <= j < self.nj,
                    0 <= i < self.ni,
                    1 <= self.ni,
            ;
            assert(self.nj * self.ni == self.ni * self.nj) by (nonlinear_arith);
        }
        Ok((j as usize) * (self.ni as usize) + (i as usize))
    }
}

/// Rounding an exact grid point back through `spec_index_for` recovers its
/// own linear index: coordinate lookup is inverse-consistent with the
/// enumeration order of `locations`.
pub proof fn lemma_index_for_location_inverse(t: LatLngTemplate, j: int, i: int)
    requires
        t.wf(),
        0 <= j < t.nj,
        0 <= i < t.ni,
    ensures
        t.spec_index_for(t.lat_at(j), t.lon_at(i)) == Ok::<int, GribError>(j * t.ni + i),
{
    lemma_mul_inequality(j, t.nj - 1, t.dj as int);
    lemma_mul_nonnegative(j, t.dj as int);
    lemma_mul_inequality(i, t.ni - 1, t.di as int);
    lemma_mul_nonnegative(i, t.di as int);
    lemma_fundamental_div_mod_converse(
        j * t.dj as int + t.dj as int / 2,
        t.dj as int,
        j,
        t.dj as int / 2,
    );
    lemma_fundamental_div_mod_converse(
        i * t.di as int + t.di as int / 2,
        t.di as int,
        i,
        t.di as int / 2,
    );
}

/// The grid definition template of a section, resolved by its
/// discriminator; anything but a well-formed regular latitude-longitude
/// grid is the explicit `Unsupported` marker, never a crash.
#[derive(Debug, Clone, Copy, PartialEq, Eq, Structural)]
pub enum GridDefinitionTemplate {
    RegularLatLng(LatLngTemplate),
    Unsupported,
}

/// The raw field values of a regular latitude-longitude grid template,
/// read from a grid definition section of at least 72 bytes.
pub open spec fn spec_latlng_fields(s: Seq<u8>) -> LatLngTemplate {
    LatLngTemplate {
        ni: be_u32_of(s, 30) as u32,
        nj: be_u32_of(s, 34) as u32,
        la1: signed_angle_of(be_u32_of(s, 46)) as i64,
        lo1: signed_angle_of(be_u32_of(s, 50)) as i64,
        la2: signed_angle_of(be_u32_of(s, 55)) as i64,
        lo2: signed_angle_of(be_u32_of(s, 59)) as i64,
        di: be_u32_of(s, 63) as u32,
        dj: be_u32_of(s, 67) as u32,
        scan_mode: s[71],
    }
}

/// The template encoded by a grid definition section's bytes: a regular
/// latitude-longitude grid when the discriminator is 0, the section holds
/// the whole template, the fields are valid and the point product matches
/// the section's declared data point count; `Unsupported` otherwise.
pub open spec fn spec_grid_definition_template(s: Seq<u8>) -> GridDefinitionTemplate {
    if be_u16_of(s, 12) == 0 && s.len() >= 72 {
        let t = spec_latlng_fields(s);
        if t.wf() && t.count() == be_u32_of(s, 6) {
            GridDefinitionTemplate::RegularLatLng(t)
        } else {
            GridDefinitionTemplate::Unsupported
        }
    } else {
        GridDefinitionTemplate::Unsupported
    }
}

} // verus!
