//! Fields and flags of 32-bit register words.
use vstd::prelude::*;

verus! {

/// The mask of the low `width` bits.
pub open spec fn low_mask(width: u32) -> u32 {
    if width >= 32 { 0xffff_ffffu32 } else { (((1u32 << width) as int) - 1) as u32 }
}

/// The field of `width` bits at bit `lsb` of `word`.
pub open spec fn field_of(word: u32, lsb: u32, width: u32) -> u32 {
    (word >> lsb) & low_mask(width)
}

/// `word` with the field of `width` bits at bit `lsb` replaced by the low
/// `width` bits of `value`.
pub open spec fn with_field(word: u32, lsb: u32, width: u32, value: u32) -> u32 {
    (word & !(low_mask(width) << lsb)) | ((value & low_mask(width)) << lsb)
}

/// Whether bit `n` of `word` is set.
pub open spec fn bit_of(word: u32, n: u32) -> bool {
    (word >> n) & 1u32 == 1u32
}

/// `word` with bit `n` set to `on`.
pub open spec fn with_bit(word: u32, n: u32, on: bool) -> u32 {
    if on { word | (1u32 << n) } else { word & !(1u32 << n) }
}

/// Reads the field of `width` bits at bit `lsb`.
pub fn field(word: u32, lsb: u32, width: u32) -> (r: u32)
    requires
        lsb < 32,
        1 <= width <= 32 - lsb,
    ensures
        r == field_of(word, lsb, width),
{
    proof {
        if width < 32 {
            assert(1u32 << width >= 1u32) by (bit_vector) requires width < 32u32;
        }
    }
    let mask: u32 = if width >= 32 { 0xffff_ffffu32 } else { (1u32 << width) - 1 };
    (word >> lsb) & mask
}

/// Replaces the field of `width` bits at bit `lsb`.
pub fn set_field(word: u32, lsb: u32, width: u32, value: u32) -> (r: u32)
    requires
        lsb < 32,
        1 <= width <= 32 - lsb,
    ensures
        r == with_field(word, lsb, width, value),
{
    proof {
        if width < 32 {
            assert(1u32 << width >= 1u32) by (bit_vector) requires width < 32u32;
        }
    }
    let mask: u32 = if width >= 32 { 0xffff_ffffu32 } else { (1u32 << width) - 1 };
    (word & !(mask << lsb)) | ((value & mask) << lsb)
}

/// Reads bit `n`.
pub fn bit(word: u32, n: u32) -> (r: bool)
    requires
        n < 32,
    ensures
        r == bit_of(word, n),
{
    (word >> n) & 1u32 == 1u32
}

/// Sets bit `n` to `on`.
pub fn set_bit(word: u32, n: u32, on: bool) -> (r: u32)
    requires
        n < 32,
    ensures
        r == with_bit(word, n, on),
{
    if on { word | (1u32 << n) } else { word & !(1u32 << n) }
}

/// A field reads back what was written to it, and a write leaves every bit
/// outside the field as it was.
pub proof fn lemma_field_roundtrip(word: u32, lsb: u32, width: u32, value: u32)
    requires
        lsb < 32,
        1 <= width <= 32 - lsb,
        width < 32,
        value < (1u32 << width),
    ensures
        field_of(with_field(word, lsb, width, value), lsb, width) == value,
        forall|n: u32| n < 32 && (n < lsb || n >= lsb + width) ==>
            (#[trigger] bit_of(with_field(word, lsb, width, value), n) == bit_of(word, n)),
{
    let m = (((1u32 << width) as int) - 1) as u32;
    assert(m == low_mask(width));
    assert((((word & !(m << lsb)) | ((value & m) << lsb)) >> lsb) & m == value) by (bit_vector)
        requires
            lsb < 32u32,
            width < 32u32,
            lsb + width <= 32u32,
            value < (1u32 << width),
            m == ((1u32 << width) - 1u32) as u32;
    assert forall|n: u32| n < 32 && (n < lsb || n >= lsb + width) implies
        (#[trigger] bit_of(with_field(word, lsb, width, value), n) == bit_of(word, n)) by {
        assert((((word & !(m << lsb)) | ((value & m) << lsb)) >> n) & 1u32 == (word >> n) & 1u32) by (bit_vector)
            requires
                lsb < 32u32,
                width < 32u32,
                lsb + width <= 32u32,
                n < 32u32,
                n < lsb || n >= lsb + width,
                m == ((1u32 << width) - 1u32) as u32;
    }
}

/// The masks of the field widths the registers use, and the powers of two
/// that bound their values.
pub proof fn lemma_small_masks()
    ensures
        low_mask(2) == 3u32,
        low_mask(4) == 0xfu32,
        low_mask(9) == 0x1ffu32,
        low_mask(12) == 0xfffu32,
        1u32 << 8u32 == 256u32,
        1u32 << 9u32 == 512u32,
        1u32 << 10u32 == 1024u32,
        5u32 << 0u32 == 5u32 && 5u32 << 1u32 == 10u32 && 5u32 << 2u32 == 20u32 && 5u32 << 3u32 == 40u32,
{
    assert({
        &&& ((1u32 << 2u32) as int) - 1 == 3
        &&& ((1u32 << 4u32) as int) - 1 == 0xf
        &&& ((1u32 << 9u32) as int) - 1 == 0x1ff
        &&& ((1u32 << 12u32) as int) - 1 == 0xfff
        &&& 1u32 << 8u32 == 256u32
        &&& 1u32 << 9u32 == 512u32
        &&& 1u32 << 10u32 == 1024u32
        &&& 5u32 << 0u32 == 5u32 && 5u32 << 1u32 == 10u32 && 5u32 << 2u32 == 20u32 && 5u32 << 3u32 == 40u32
    }) by (bit_vector);
}

/// A bit reads back what was written to it, and the other bits are unchanged.
pub proof fn lemma_bit_roundtrip(word: u32, n: u32, on: bool)
    requires
        n < 32,
    ensures
        bit_of(with_bit(word, n, on), n) == on,
        forall|k: u32| k < 32 && k != n ==> (#[trigger] bit_of(with_bit(word, n, on), k) == bit_of(word, k)),
{
    assert(((word | (1u32 << n)) >> n) & 1u32 == 1u32) by (bit_vector) requires n < 32u32;
    assert(((word & !(1u32 << n)) >> n) & 1u32 == 0u32) by (bit_vector) requires n < 32u32;
    assert forall|k: u32| k < 32 && k != n implies
        (#[trigger] bit_of(with_bit(word, n, on), k) == bit_of(word, k)) by {
        assert(((word | (1u32 << n)) >> k) & 1u32 == (word >> k) & 1u32) by (bit_vector)
            requires n < 32u32, k < 32u32, k != n;
        assert(((word & !(1u32 << n)) >> k) & 1u32 == (word >> k) & 1u32) by (bit_vector)
            requires n < 32u32, k < 32u32, k != n;
    }
}

/// A field of `width` bits is below `2^width`.
pub proof fn lemma_field_bound(word: u32, lsb: u32, width: u32)
    requires
        lsb < 32,
        1 <= width <= 16,
    ensures
        field_of(word, lsb, width) < (1u32 << width),
        field_of(word, lsb, width) < vstd::arithmetic::power2::pow2(width as nat),
        field_of(word, lsb, width) <= 0xffff,
{
    vstd::arithmetic::power2::lemma2_to64();
    vstd::bits::lemma_u32_shl_is_mul(1, width);
    let m = (((1u32 << width) as int) - 1) as u32;
    assert(((word >> lsb) & m) < (1u32 << width) && (1u32 << width) <= 0x10000u32) by (bit_vector)
        requires
            lsb < 32u32,
            1u32 <= width <= 16u32,
            m == ((1u32 << width) - 1u32) as u32;
}

/// Setting a bit and then clearing it is clearing it.
pub proof fn lemma_set_then_clear(word: u32, n: u32)
    requires
        n < 32,
    ensures
        with_bit(with_bit(word, n, true), n, false) == with_bit(word, n, false),
        with_bit(with_bit(word, n, false), n, false) == with_bit(word, n, false),
{
    assert((word | (1u32 << n)) & !(1u32 << n) == word & !(1u32 << n)
        && (word & !(1u32 << n)) & !(1u32 << n) == word & !(1u32 << n)) by (bit_vector) requires n < 32u32;
}

} // verus!
