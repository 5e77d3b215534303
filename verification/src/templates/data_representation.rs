use vstd::prelude::*;
use vstd::arithmetic::power2::pow2;
use vstd::arithmetic::power2::lemma_pow2_unfold;
use vstd::arithmetic::power2::lemma_pow2_strictly_increases;
use vstd::arithmetic::power2::lemma2_to64;
use vstd::arithmetic::power2::lemma2_to64_rest;
use vstd::arithmetic::div_mod::lemma_fundamental_div_mod;
use vstd::arithmetic::mul::lemma_mul_inequality;
use vstd::arithmetic::mul::lemma_mul_is_distributive_add_other_way;
use vstd::arithmetic::mul::lemma_mul_nonnegative;
use crate::error::GribError;
use crate::utils::be_u16_of;
use crate::utils::be_u32_of;
use crate::utils::bit_seq_of;
use crate::utils::bits_from_bytes;
use crate::utils::signed_scale_of;

verus! {

/// The unsigned integer held by `width` consecutive bits of `bits`
/// starting at `start`, most significant bit first. `bits` holds one
/// `0`/`1` byte per bit.
pub open spec fn bits_value(bits: Seq<u8>, start: int, width: nat) -> nat
    decreases width,
{
    if width == 0 {
        0
    } else {
        (2 * bits_value(bits, start, (width - 1) as nat) + bits[start + width - 1]) as nat
    }
}

/// A run of `width` bits encodes a value below `pow2(width)`.
pub proof fn lemma_bits_value_bound(bits: Seq<u8>, start: int, width: nat)
    requires
        forall|i: int| start <= i < start + width ==> bits[i] <= 1,
    ensures
        bits_value(bits, start, width) < pow2(width),
    decreases width,
{
    if width == 0 {
        lemma2_to64();
    } else {
        lemma_bits_value_bound(bits, start, (width - 1) as nat);
        lemma_pow2_unfold(width);
    }
}

/// The parameters of the simple packing representation: each value is
/// recovered from a packed integer `raw` as
/// `(R + raw * 2^binary_scale) / 10^decimal_scale`, where `R` is the
/// IEEE-754 binary32 value whose bit pattern is `reference_bits`.
#[derive(Debug, Clone, Copy, PartialEq, Eq, Structural)]
pub struct SimplePackingTemplate {
    pub reference_bits: u32,
    pub binary_scale: i16,
    pub decimal_scale: i16,
    pub bits_per_value: u8,
}

/// The data representation template of a section, resolved by its
/// discriminator; an unrecognised or truncated template is the explicit
/// `Unsupported` marker, never a crash.
#[derive(Debug, Clone, Copy, PartialEq, Eq, Structural)]
pub enum DataRepresentationTemplate {
    SimplePacking(SimplePackingTemplate),
    Unsupported,
}

/// The template encoded by a data representation section's bytes.
pub open spec fn spec_data_representation_template(s: Seq<u8>) -> DataRepresentationTemplate {
    if be_u16_of(s, 9) == 0 && s.len() >= 21 {
        DataRepresentationTemplate::SimplePacking(
            SimplePackingTemplate {
                reference_bits: be_u32_of(s, 11) as u32,
                binary_scale: signed_scale_of(be_u16_of(s, 15)) as i16,
                decimal_scale: signed_scale_of(be_u16_of(s, 17)) as i16,
                bits_per_value: s[19],
            },
        )
    } else {
        DataRepresentationTemplate::Unsupported
    }
}

/// Reads the `width` bits of `bits` starting at bit `start` as one
/// unsigned integer, most significant bit first.
fn unpack_value(bits: &Vec<u8>, start: usize, width: usize) -> (r: u64)
    requires
        width <= 64,
        start + width <= bits@.len(),
        forall|i: int| 0 <= i < bits@.len() ==> bits@[i] <= 1,
    ensures
        r as nat == bits_value(bits@, start as int, width as nat),
{
    proof {
        lemma2_to64();
        lemma2_to64_rest();
    }
    let bl = bits.len();
    let mut acc: u64 = 0;
    let mut k: usize = 0;
    while k < width
        invariant
            k <= width <= 64,
            bl == bits@.len(),
            start + width <= bl,
            forall|i: int| 0 <= i < bits@.len() ==> bits@[i] <= 1,
            acc as nat == bits_value(bits@, start as int, k as nat),
            acc < pow2(k as nat),
        decreases width - k,
    {
        proof {
            lemma2_to64();
            lemma2_to64_rest();
            lemma_pow2_unfold((k + 1) as nat);
            if k < 63 {
                lemma_pow2_strictly_increases(k as nat, 63);
            }
        }
        let b = bits[start + k];
        acc = acc * 2 + (b as u64);
        k += 1;
    }
    acc
}

impl SimplePackingTemplate {
    /// Whether `count` values of this template's bit width fit in a
    /// payload of `len` bytes.
    pub open spec fn spec_can_unpack(&self, len: int, count: int) -> bool {
        self.bits_per_value <= 64 && count * self.bits_per_value <= 8 * len
    }

    /// The packed integer of the value at position `k` of the payload `s`.
    pub open spec fn spec_value_at(&self, s: Seq<u8>, k: int) -> nat {
        bits_value(bit_seq_of(s), k * self.bits_per_value, self.bits_per_value as nat)
    }

    /// Decodes the packed integers of every one of the `count` declared
    /// values, in order. Fails closed when the bit width is too wide for a
    /// 64-bit value or the payload holds fewer than `count * width` bits.
    pub fn unpack_all(&self, data: &[u8], count: usize) -> (r: Result<Vec<u64>, GribError>)
        ensures
            r is Ok <==> self.spec_can_unpack(data@.len() as int, count as int),
            r is Err ==> r == Err::<Vec<u64>, GribError>(GribError::MalformedSection),
            r matches Ok(v) ==> v@.len() == count && forall|k: int|
                0 <= k < count ==> #[trigger] v@[k] as nat == self.spec_value_at(data@, k),
    {
        self.unpack_range(data, 0, count)
    }

    /// Decodes only the packed integers of positions `lo..hi`, seeking
    /// directly to bit `lo * width` without touching earlier values.
    pub fn unpack_range(&self, data: &[u8], lo: usize, hi: usize) -> (r: Result<
        Vec<u64>,
        GribError,
    >)
        requires
            lo <= hi,
        ensures
            r is Ok <==> self.spec_can_unpack(data@.len() as int, hi as int),
            r is Err ==> r == Err::<Vec<u64>, GribError>(GribError::MalformedSection),
            r matches Ok(v) ==> v@.len() == hi - lo && forall|k: int|
                0 <= k < hi - lo ==> #[trigger] v@[k] as nat == self.spec_value_at(
                    data@,
                    lo + k,
                ),
    {
        if self.bits_per_value > 64 {
            return Err(GribError::MalformedSection);
        }
        let n = self.bits_per_value as usize;
        let bits = bits_from_bytes(data);
        if n == 0 {
            let mut v: Vec<u64> = Vec::new();
            let mut k: usize = 0;
            while k < hi - lo
                invariant
                    lo <= hi,
                    k <= hi - lo,
                    v@.len() == k,
                    forall|m: int| 0 <= m < k ==> v@[m] == 0,
                decreases hi - lo - k,
            {
                v.push(0u64);
                k += 1;
            }
            return Ok(v);
        }
        let bl = bits.len();
        if hi > bl / n {
            proof {
                lemma_fundamental_div_mod(bl as int, n as int);
                lemma_mul_inequality((bl as int / n as int) + 1, hi as int, n as int);
                lemma_mul_is_distributive_add_other_way(
                    n as int,
                    bl as int / n as int,
                    1,
                );
            }
            return Err(GribError::MalformedSection);
        }
        proof {
            lemma_fundamental_div_mod(bl as int, n as int);
            lemma_mul_inequality(hi as int, bl as int / n as int, n as int);
        }
        let mut v: Vec<u64> = Vec::new();
        let mut k: usize = 0;
        while k < hi - lo
            invariant
                lo <= hi,
                k <= hi - lo,
                v@.len() == k,
                n == self.bits_per_value,
                1 <= n <= 64,
                bl == bits@.len(),
                hi * n <= bl,
                bits@ == bit_seq_of(data@),
                forall|i: int| 0 <= i < bits@.len() ==> bits@[i] <= 1,
                forall|m: int|
                    0 <= m < k ==> #[trigger] v@[m] as nat == self.spec_value_at(data@, lo + m),
            decreases hi - lo - k,
        {
            proof {
                lemma_mul_inequality((lo + k + 1) as int, hi as int, n as int);
                lemma_mul_is_distributive_add_other_way(n as int, (lo + k) as int, 1);
                lemma_mul_nonnegative((lo + k) as int, n as int);
            }
            let val = unpack_value(&bits, (lo + k) * n, n);
            v.push(val);
            k += 1;
        }
        Ok(v)
    }
}

} // verus!
