use vstd::prelude::*;
use vstd::slice::slice_index_get;

verus! {

/// The big-endian value of the two bytes of `s` starting at `off`.
pub open spec fn be_u16_of(s: Seq<u8>, off: int) -> int {
    s[off] * 0x100 + s[off + 1]
}

/// The big-endian value of the four bytes of `s` starting at `off`.
pub open spec fn be_u32_of(s: Seq<u8>, off: int) -> int {
    s[off] * 0x1000000 + s[off + 1] * 0x10000 + s[off + 2] * 0x100 + s[off + 3]
}

/// The big-endian value of the eight bytes of `s` starting at `off`.
pub open spec fn be_u64_of(s: Seq<u8>, off: int) -> int {
    s[off] * 0x100000000000000 + s[off + 1] * 0x1000000000000 + s[off + 2] * 0x10000000000
        + s[off + 3] * 0x100000000 + s[off + 4] * 0x1000000 + s[off + 5] * 0x10000
        + s[off + 6] * 0x100 + s[off + 7]
}

/// The value encoded sign-and-magnitude in 32 bits: the top bit is the
/// sign, the remaining 31 bits the magnitude.
pub open spec fn signed_angle_of(v: int) -> int {
    if v >= 0x80000000 {
        -(v - 0x80000000)
    } else {
        v
    }
}

/// The value encoded sign-and-magnitude in 16 bits.
pub open spec fn signed_scale_of(v: int) -> int {
    if v >= 0x8000 {
        -(v - 0x8000)
    } else {
        v
    }
}

/// Decodes a sign-and-magnitude 32-bit field.
pub fn signed_angle(v: u32) -> (r: i64)
    ensures
        r == signed_angle_of(v as int),
        -0x7FFFFFFF <= r <= 0x7FFFFFFF,
{
    if v >= 0x80000000 {
        -((v - 0x80000000) as i64)
    } else {
        v as i64
    }
}

/// Decodes a sign-and-magnitude 16-bit field.
pub fn signed_scale(v: u16) -> (r: i16)
    ensures
        r == signed_scale_of(v as int),
        -0x7FFF <= r <= 0x7FFF,
{
    if v >= 0x8000 {
        -((v - 0x8000) as i16)
    } else {
        v as i16
    }
}

/// Bit `j` (0 = most significant) of the byte `b`.
pub open spec fn bit_of_byte(b: u8, j: int) -> u8
    recommends
        0 <= j < 8,
{
    (b >> ((7 - j) as u8)) & 1
}

/// Bit `i` of `s` read as a continuous stream, most-significant-bit first.
pub open spec fn bit_at(s: Seq<u8>, i: int) -> u8
    recommends
        0 <= i < 8 * s.len(),
{
    bit_of_byte(s[i / 8], i % 8)
}

/// The bits of `s` as a sequence of `0`/`1` bytes, most-significant-bit first.
pub open spec fn bit_seq_of(s: Seq<u8>) -> Seq<u8> {
    Seq::new((8 * s.len()) as nat, |i: int| bit_at(s, i))
}

/// A single bit extracted by shift and mask is zero or one.
pub proof fn lemma_bit_of_byte_is_binary(b: u8, j: int)
    requires
        0 <= j < 8,
    ensures
        bit_of_byte(b, j) == 0 || bit_of_byte(b, j) == 1,
{
    let s: u8 = (7 - j) as u8;
    assert((b >> s) & 1 == 0 || (b >> s) & 1 == 1) by (bit_vector);
}

/// Reads a big-endian `u16` at `offset`, or `None` when fewer than two bytes remain.
pub fn read_u16_from_bytes(data: &[u8], offset: usize) -> (r: Option<u16>)
    ensures
        offset + 2 <= data@.len() ==> r == Some((be_u16_of(data@, offset as int)) as u16),
        offset + 2 > data@.len() ==> r is None,
{
    if data.len() < 2 || offset > data.len() - 2 {
        return None;
    }
    let b0 = *slice_index_get(data, offset);
    let b1 = *slice_index_get(data, offset + 1);
    Some((b0 as u16) * 0x100 + (b1 as u16))
}

/// Reads a big-endian `u32` at `offset`, or `None` when fewer than four bytes remain.
pub fn read_u32_from_bytes(data: &[u8], offset: usize) -> (r: Option<u32>)
    ensures
        offset + 4 <= data@.len() ==> r == Some((be_u32_of(data@, offset as int)) as u32),
        offset + 4 > data@.len() ==> r is None,
{
    if data.len() < 4 || offset > data.len() - 4 {
        return None;
    }
    let b0 = *slice_index_get(data, offset);
    let b1 = *slice_index_get(data, offset + 1);
    let b2 = *slice_index_get(data, offset + 2);
    let b3 = *slice_index_get(data, offset + 3);
    Some((b0 as u32) * 0x1000000 + (b1 as u32) * 0x10000 + (b2 as u32) * 0x100 + (b3 as u32))
}

/// Reads a big-endian `u64` at `offset`, or `None` when fewer than eight bytes remain.
pub fn read_u64_from_bytes(data: &[u8], offset: usize) -> (r: Option<u64>)
    ensures
        offset + 8 <= data@.len() ==> r == Some((be_u64_of(data@, offset as int)) as u64),
        offset + 8 > data@.len() ==> r is None,
{
    if data.len() < 8 || offset > data.len() - 8 {
        return None;
    }
    let b0 = *slice_index_get(data, offset);
    let b1 = *slice_index_get(data, offset + 1);
    let b2 = *slice_index_get(data, offset + 2);
    let b3 = *slice_index_get(data, offset + 3);
    let b4 = *slice_index_get(data, offset + 4);
    let b5 = *slice_index_get(data, offset + 5);
    let b6 = *slice_index_get(data, offset + 6);
    let b7 = *slice_index_get(data, offset + 7);
    Some(
        (b0 as u64) * 0x100000000000000 + (b1 as u64) * 0x1000000000000 + (b2 as u64)
            * 0x10000000000 + (b3 as u64) * 0x100000000 + (b4 as u64) * 0x1000000 + (b5 as u64)
            * 0x10000 + (b6 as u64) * 0x100 + (b7 as u64),
    )
}

/// Expands `data` into one `0`/`1` byte per bit, most-significant-bit first.
pub fn bits_from_bytes(data: &[u8]) -> (r: Vec<u8>)
    ensures
        r@ == bit_seq_of(data@),
        forall|i: int| 0 <= i < r@.len() ==> r@[i] <= 1,
{
    let mut r: Vec<u8> = Vec::new();
    let mut k: usize = 0;
    while k < data.len()
        invariant
            k <= data@.len(),
            r@.len() == 8 * k,
            forall|i: int| 0 <= i < r@.len() ==> r@[i] == bit_at(data@, i),
            forall|i: int| 0 <= i < r@.len() ==> r@[i] <= 1,
        decreases data@.len() - k,
    {
        let b = *slice_index_get(data, k);
        let mut j: usize = 0;
        while j < 8
            invariant
                j <= 8,
                k < data@.len(),
                b == data@[k as int],
                r@.len() == 8 * k + j,
                forall|i: int| 0 <= i < r@.len() ==> r@[i] == bit_at(data@, i),
                forall|i: int| 0 <= i < r@.len() ==> r@[i] <= 1,
            decreases 8 - j,
        {
            let s: u8 = (7 - j) as u8;
            let bit: u8 = (b >> s) & 1;
            proof {
                lemma_bit_of_byte_is_binary(b, j as int);
                assert((8 * k + j) as int / 8 == k as int);
                assert((8 * k + j) as int % 8 == j as int);
            }
            r.push(bit);
            j += 1;
        }
        k += 1;
    }
    proof {
        assert(r@ =~= bit_seq_of(data@));
    }
    r
}

} // verus!
