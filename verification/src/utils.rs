//! Sign extension of narrow instruction fields to the 16-bit word.

use vstd::prelude::*;

verus! {

/// The bits of a word that lie above its low `size` bits.
pub open spec fn high_bits(size: usize) -> u16 {
    if size < 16 {
        0xFFFFu16 << size
    } else {
        0
    }
}

/// Whether bit `size - 1` of `v`, the sign bit of a field of `size` bits, is set.
/// A field of no bits has no sign bit, and a word has no bit above bit 15.
pub open spec fn sign_bit_set(v: u16, size: usize) -> bool {
    1 <= size <= 16 && (v >> ((size - 1) as usize)) & 1 == 1
}

/// The word that stands for the field of `size` bits held in the low bits of `v`:
/// `v` itself where the sign bit is clear, `v` with every higher bit set where it
/// is set.
pub open spec fn sign_extend_spec(v: u16, size: usize) -> u16 {
    if sign_bit_set(v, size) {
        v | high_bits(size)
    } else {
        v
    }
}

/// The signed number that a word stands for in two's complement.
pub open spec fn signed(v: u16) -> int {
    if v < 0x8000 {
        v as int
    } else {
        v - 0x10000
    }
}

/// Extending from the full width of 16 bits changes nothing.
pub proof fn lemma_sign_extend_full_width(v: u16)
    ensures
        sign_extend_spec(v, 16) == v,
{
    assert(v | 0u16 == v) by (bit_vector);
}

/// Extending twice from the same width gives what extending once gives.
pub proof fn lemma_sign_extend_idempotent(v: u16, size: usize)
    ensures
        sign_extend_spec(sign_extend_spec(v, size), size) == sign_extend_spec(v, size),
{
    if 1 <= size < 16 {
        let top = (size - 1) as usize;
        assert(top < size < 16 ==> ((v | (0xFFFFu16 << size)) >> top) & 1 == (v >> top) & 1)
            by (bit_vector);
        assert((v | (0xFFFFu16 << size)) | (0xFFFFu16 << size) == v | (0xFFFFu16 << size))
            by (bit_vector);
    } else {
        assert(v | 0u16 == v) by (bit_vector);
    }
}

/// For a field of 1 to 16 bits with nothing set above it, the sign bit decides the
/// bits above the field: all of them are 1 where it is set, all 0 where it is
/// clear. The field itself stays as it was.
pub proof fn lemma_sign_extend_high_bits(v: u16, size: usize)
    requires
        1 <= size <= 16,
        v & high_bits(size) == 0,
    ensures
        sign_bit_set(v, size) ==> sign_extend_spec(v, size) & high_bits(size) == high_bits(size),
        !sign_bit_set(v, size) ==> sign_extend_spec(v, size) & high_bits(size) == 0,
        !sign_bit_set(v, size) ==> sign_extend_spec(v, size) == v,
        sign_extend_spec(v, size) & !high_bits(size) == v,
{
    let h = high_bits(size);
    assert(v & h == 0 ==> (v | h) & h == h && (v | h) & !h == v && v & !h == v) by (bit_vector);
}

/// The result stands for the same signed number as the field: a field of `size`
/// bits with its sign bit set stands for its unsigned reading less 2^`size`.
pub proof fn lemma_sign_extend_value(v: u16, size: usize)
    requires
        1 <= size <= 16,
        v & high_bits(size) == 0,
    ensures
        sign_bit_set(v, size) ==> signed(sign_extend_spec(v, size)) == v - (1u32 << size),
        !sign_bit_set(v, size) ==> signed(sign_extend_spec(v, size)) == v,
{
    if size < 16 {
        assert(v & (0xFFFFu16 << size) == 0 && size < 16 ==> v < (1u32 << size) && (1u32 << size)
            <= 0x8000) by (bit_vector);
        assert(v & (0xFFFFu16 << size) == 0 && 1 <= size < 16 && (v >> ((size - 1) as usize)) & 1
            == 1 ==> (v | (0xFFFFu16 << size)) >= 0x8000 && (v | (0xFFFFu16 << size)) == v
            + 0x10000 - (1u32 << size)) by (bit_vector);
    } else {
        assert((v >> 15usize) & 1 == 1 <==> v >= 0x8000) by (bit_vector);
        assert(v | 0u16 == v) by (bit_vector);
        assert(1u32 << 16usize == 0x10000) by (bit_vector);
    }
}

/// Widens the signed field held in the low `size` bits of `n` to 16 bits: where
/// bit `size - 1` is set, every bit above it is set too. A `size` of 0 names no
/// sign bit, and one of 16 or more leaves no bit above it: `n` comes back as it
/// is.
pub fn sign_extend(n: u16, size: usize) -> (r: u16)
    ensures
        r == sign_extend_spec(n, size),
        size == 0 || size >= 16 ==> r == n,
        1 <= size <= 16 && n & high_bits(size) == 0 ==> {
            &&& r & !high_bits(size) == n
            &&& r & high_bits(size) == (if sign_bit_set(n, size) {
                high_bits(size)
            } else {
                0
            })
            &&& signed(r) == (if sign_bit_set(n, size) {
                n - (1u32 << size)
            } else {
                n as int
            })
        },
{
    proof {
        lemma_sign_extend_full_width(n);
        if 1 <= size <= 16 && n & high_bits(size) == 0 {
            lemma_sign_extend_high_bits(n, size);
            lemma_sign_extend_value(n, size);
        }
    }
    if size == 0 || size > 16 {
        n
    } else if (n >> (size - 1)) & 0x1 == 1 {
        if size == 16 {
            n
        } else {
            n | (0xFFFFu16 << size)
        }
    } else {
        n
    }
}

} // verus!
