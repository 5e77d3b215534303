use vstd::prelude::*;
use crate::utils::be_u32_of;
use crate::utils::bit_seq_of;
use crate::utils::bits_from_bytes;

verus! {

/// The number of set bits among the first `i` entries of `bits` (entries
/// are `0`/`1` bytes).
pub open spec fn spec_rank(bits: Seq<u8>, i: int) -> int
    decreases i,
{
    if i <= 0 {
        0
    } else {
        spec_rank(bits, i - 1) + (if bits[i - 1] == 1 {
            1int
        } else {
            0int
        })
    }
}

/// The rank never exceeds the number of entries counted.
pub proof fn lemma_rank_le(bits: Seq<u8>, i: int)
    requires
        i >= 0,
    ensures
        0 <= spec_rank(bits, i) <= i,
    decreases i,
{
    if i > 0 {
        lemma_rank_le(bits, i - 1);
    }
}

/// The bitmap section: an optional presence mask with one bit per grid
/// point, most-significant-bit first, in grid enumeration order.
pub struct BitmapSection<'a> {
    data: &'a [u8],
}

impl<'a> View for BitmapSection<'a> {
    type V = Seq<u8>;

    closed spec fn view(&self) -> Seq<u8> {
        self.data@
    }
}

/// Whether a bitmap applies: the indicator octet is 0. Any other code
/// (255 means "no bitmap"; the rest are predefined masks this library does
/// not carry) leaves the data dense.
pub open spec fn spec_has_bitmap(s: Seq<u8>) -> bool {
    s[5] == 0
}

/// The presence bits of a bitmap section's bytes: the payload after the
/// six header octets, one entry per bit.
pub open spec fn spec_bitmap_bits(s: Seq<u8>) -> Seq<u8> {
    bit_seq_of(s.subrange(6, s.len() as int))
}

/// Where grid index `i` falls in the compact decoded sequence: `i` itself
/// when no bitmap applies; the number of set bits before `i` when the
/// bitmap marks `i` present; `None` when it marks `i` absent (or the
/// bitmap is too short to cover `i`).
pub open spec fn spec_data_index(s: Seq<u8>, i: int) -> Option<int> {
    if !spec_has_bitmap(s) {
        Some(i)
    } else if 0 <= i < spec_bitmap_bits(s).len() && spec_bitmap_bits(s)[i] == 1 {
        Some(spec_rank(spec_bitmap_bits(s), i))
    } else {
        None
    }
}

/// The full grid sequence obtained by spreading the compact sequence
/// `compact` over `n` grid points: position `i` holds the compact value at
/// `spec_data_index` when the bitmap marks `i` present and the compact
/// sequence is long enough, and `None` (the missing-value sentinel)
/// otherwise.
pub open spec fn spec_map_data(s: Seq<u8>, compact: Seq<u64>, n: int) -> Seq<Option<u64>> {
    Seq::new(
        n as nat,
        |i: int|
            match spec_data_index(s, i) {
                Some(d) => if 0 <= d < compact.len() {
                    Some(compact[d])
                } else {
                    None
                },
                None => None,
            },
    )
}

impl<'a> BitmapSection<'a> {
    pub open spec fn wf(&self) -> bool {
        self@.len() >= 6 && self@.len() == be_u32_of(self@, 0) && self@[4] == 6
    }

    pub(crate) fn new(data: &'a [u8]) -> (r: Self)
        ensures
            r@ == data@,
    {
        BitmapSection { data }
    }

    /// The bitmap indicator octet.
    pub fn bitmap_indicator(&self) -> (r: u8)
        requires
            self.wf(),
        ensures
            r == self@[5],
    {
        *vstd::slice::slice_index_get(self.data, 5)
    }

    /// Whether a bitmap applies to the data section.
    pub fn has_bitmap(&self) -> (r: bool)
        requires
            self.wf(),
        ensures
            r == spec_has_bitmap(self@),
    {
        self.bitmap_indicator() == 0
    }

    /// Converts grid index `i` into its position in the compact decoded
    /// sequence, or `None` when the bitmap marks `i` absent.
    pub fn data_index(&self, i: usize) -> (r: Option<usize>)
        requires
            self.wf(),
        ensures
            match r {
                Some(d) => spec_data_index(self@, i as int) == Some(d as int),
                None => spec_data_index(self@, i as int) is None,
            },
    {
        if !self.has_bitmap() {
            return Some(i);
        }
        let payload = vstd::slice::slice_subrange(self.data, 6, self.data.len());
        let bits = bits_from_bytes(payload);
        if i >= bits.len() || *vstd::slice::slice_index_get(bits.as_slice(), i) != 1 {
            return None;
        }
        let mut rank: usize = 0;
        let mut k: usize = 0;
        while k < i
            invariant
                k <= i < bits@.len(),
                bits@ == spec_bitmap_bits(self@),
                rank == spec_rank(bits@, k as int),
                rank <= k,
            decreases i - k,
        {
            if *vstd::slice::slice_index_get(bits.as_slice(), k) == 1 {
                rank += 1;
            }
            k += 1;
        }
        Some(rank)
    }

    /// Spreads the compact decoded sequence over `grid_points` grid
    /// points, inserting the missing-value sentinel (`None`) at every
    /// position the bitmap marks absent. The result always holds exactly
    /// one entry per grid point, however many presence bits are set.
    pub fn map_data(&self, compact: Vec<u64>, grid_points: usize) -> (r: Vec<Option<u64>>)
        requires
            self.wf(),
        ensures
            r@.len() == grid_points,
            r@ == spec_map_data(self@, compact@, grid_points as int),
    {
        let mut out: Vec<Option<u64>> = Vec::new();
        if !self.has_bitmap() {
            let mut i: usize = 0;
            while i < grid_points
                invariant
                    i <= grid_points,
                    !spec_has_bitmap(self@),
                    out@.len() == i,
                    forall|m: int|
                        0 <= m < i ==> out@[m] == spec_map_data(
                            self@,
                            compact@,
                            grid_points as int,
                        )[m],
                decreases grid_points - i,
            {
                if i < compact.len() {
                    out.push(Some(compact[i]));
                } else {
                    out.push(None);
                }
                i += 1;
            }
            proof {
                assert(out@ =~= spec_map_data(self@, compact@, grid_points as int));
            }
            return out;
        }
        let payload = vstd::slice::slice_subrange(self.data, 6, self.data.len());
        let bits = bits_from_bytes(payload);
        let mut used: usize = 0;
        let mut i: usize = 0;
        while i < grid_points
            invariant
                i <= grid_points,
                spec_has_bitmap(self@),
                bits@ == spec_bitmap_bits(self@),
                out@.len() == i,
                used == spec_rank(bits@, if i <= bits@.len() {
                    i as int
                } else {
                    bits@.len() as int
                }),
                used <= i,
                forall|m: int|
                    0 <= m < i ==> out@[m] == spec_map_data(self@, compact@, grid_points as int)[m],
            decreases grid_points - i,
        {
            if i < bits.len() && *vstd::slice::slice_index_get(bits.as_slice(), i) == 1 {
                if used < compact.len() {
                    out.push(Some(compact[used]));
                } else {
                    out.push(None);
                }
                used += 1;
            } else {
                out.push(None);
            }
            i += 1;
        }
        proof {
            assert(out@ =~= spec_map_data(self@, compact@, grid_points as int));
        }
        out
    }

    pub fn len(&self) -> (r: usize)
        ensures
            r == self@.len(),
    {
        self.data.len()
    }
}

} // verus!
