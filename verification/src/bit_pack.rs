//! Packing and unpacking of coil values into a compact bitfield.
//!
//! Coil number `i` lives in bit `i % 8` (LSB first) of byte `i / 8`.

use vstd::prelude::*;

use crate::Coil;

verus! {

const COILS_PER_BYTE: usize = 8;

/// The number of bytes needed to hold `coils` coil values: `ceil(coils / 8)`.
pub open spec fn spec_bytes_needed(coils: int) -> int {
    (coils + 7) / 8
}

/// `spec_bytes_needed` is exactly the ceiling of `coils / 8`: it is the
/// smallest byte count whose bits cover all `coils` coil positions.
pub proof fn lemma_bytes_needed_is_ceil(coils: int)
    requires
        coils >= 0,
    ensures
        8 * spec_bytes_needed(coils) >= coils,
        coils > 0 ==> 8 * (spec_bytes_needed(coils) - 1) < coils,
        coils == 0 ==> spec_bytes_needed(coils) == 0,
{
}

/// Bit `k` of `byte`, counting from the least significant end.
pub open spec fn nth_bit(byte: u8, k: u8) -> bool {
    (byte >> k) & 1 == 1
}

/// The bitfield in `bytes` and the coil sequence `coils` agree: coil `i` is
/// `On` exactly when bit `i % 8` of byte `i / 8` is set.
pub open spec fn coils_packed(coils: Seq<Coil>, bytes: Seq<u8>) -> bool
    recommends
        8 * bytes.len() >= coils.len(),
{
    forall|i: int|
        0 <= i < coils.len() ==> #[trigger] coils[i] == (if nth_bit(
            bytes[i / 8],
            (i % 8) as u8,
        ) {
            Coil::On
        } else {
            Coil::Off
        })
}

/// Every bit at a coil position at or past `n`, within the `spec_bytes_needed(n)`
/// bytes a packing of `n` coils touches, is clear.
pub open spec fn trailing_bits_clear(n: int, bytes: Seq<u8>) -> bool {
    forall|bi: int, off: u8|
        0 <= bi < spec_bytes_needed(n) && off < 8 && 8 * bi + off >= n ==> !(#[trigger] nth_bit(
            bytes[bi],
            off,
        ))
}

proof fn lemma_bit_or(b: u8, j: u8, k: u8)
    requires
        j < 8,
        k < 8,
    ensures
        nth_bit(b | (1u8 << j), k) == (k == j || nth_bit(b, k)),
{
    assert((((b | (1u8 << j)) >> k) & 1 == 1) == (k == j || (b >> k) & 1 == 1)) by (bit_vector)
        requires
            j < 8,
            k < 8,
    ;
}

proof fn lemma_bit_clear(b: u8, j: u8, k: u8)
    requires
        j < 8,
        k < 8,
    ensures
        nth_bit(b & !(1u8 << j), k) == (k != j && nth_bit(b, k)),
{
    assert((((b & !(1u8 << j)) >> k) & 1 == 1) == (k != j && (b >> k) & 1 == 1)) by (bit_vector)
        requires
            j < 8,
            k < 8,
    ;
}

proof fn lemma_bit_mask(b: u8, k: u8)
    requires
        k < 8,
    ensures
        (b & (1u8 << k) != 0) == nth_bit(b, k),
{
    assert((b & (1u8 << k) != 0) == ((b >> k) & 1 == 1)) by (bit_vector)
        requires
            k < 8,
    ;
}

proof fn lemma_zero_bits(k: u8)
    ensures
        !nth_bit(0u8, k),
{
    assert((0u8 >> k) & 1 != 1) by (bit_vector);
}

/// A coil position names one bit: two positions with the same byte index and
/// the same bit offset are the same position.
proof fn lemma_position_unique(p: int, q: int)
    requires
        p >= 0,
        q >= 0,
        p / 8 == q / 8,
        p % 8 == q % 8,
    ensures
        p == q,
{
}

/// Calculate the number of bytes needed to store the given number of coils
pub fn bytes_needed(coils: usize) -> (r: usize)
    requires
        coils + 8 <= usize::MAX,
    ensures
        r == spec_bytes_needed(coils as int),
{
    (coils + COILS_PER_BYTE - 1) / COILS_PER_BYTE
}

/// Write coil values to the given byte slice
///
/// Only the first `bytes_needed(coils.len())` bytes are written: any bytes
/// past that range are left unchanged, and unused trailing bits within the
/// written range come out cleared rather than stale.
pub fn pack_coils(coils: &[Coil], bytes: &mut [u8])
    requires
        coils@.len() + 8 <= usize::MAX,
        old(bytes)@.len() >= spec_bytes_needed(coils@.len() as int),
    ensures
        final(bytes)@.len() == old(bytes)@.len(),
        coils_packed(coils@, final(bytes)@),
        trailing_bits_clear(coils@.len() as int, final(bytes)@),
        forall|j: int|
            spec_bytes_needed(coils@.len() as int) <= j < final(bytes)@.len()
                ==> final(bytes)@[j] == old(bytes)@[j],
{
    let needed = bytes_needed(coils.len());

    // Zero out the output range
    let mut j: usize = 0;
    while j < needed
        invariant
            j <= needed,
            needed == spec_bytes_needed(coils@.len() as int),
            needed <= bytes@.len(),
            bytes@.len() == old(bytes)@.len(),
            forall|b: int| 0 <= b < j ==> bytes@[b] == 0u8,
            forall|b: int| needed <= b < bytes@.len() ==> bytes@[b] == old(bytes)@[b],
        decreases needed - j,
    {
        bytes[j] = 0;
        j += 1;
    }

    let ghost zeroed = bytes@;
    proof {
        assert forall|bi: int, off: u8|
            0 <= bi < needed && off < 8 && 8 * bi + off >= 0 implies !nth_bit(
            zeroed[bi],
            off,
        ) by {
            lemma_zero_bits(off);
        }
    }

    let mut i: usize = 0;
    while i < coils.len()
        invariant
            i <= coils@.len(),
            coils@.len() + 8 <= usize::MAX,
            needed == spec_bytes_needed(coils@.len() as int),
            needed <= bytes@.len(),
            bytes@.len() == old(bytes)@.len(),
            forall|p: int|
                0 <= p < i ==> #[trigger] coils@[p] == (if nth_bit(
                    bytes@[p / 8],
                    (p % 8) as u8,
                ) {
                    Coil::On
                } else {
                    Coil::Off
                }),
            forall|bi: int, off: u8|
                0 <= bi < needed && off < 8 && 8 * bi + off >= i ==> !(#[trigger] nth_bit(
                    bytes@[bi],
                    off,
                )),
            forall|b: int| needed <= b < bytes@.len() ==> bytes@[b] == old(bytes)@[b],
        decreases coils@.len() - i,
    {
        // The byte this coil will be assigned to
        let byte_index = i / COILS_PER_BYTE;

        // The bit within the byte this coil will be assigned to
        let bit_index = (i % COILS_PER_BYTE) as u8;

        proof {
            assert(byte_index < needed);
        }

        let bit_flag: u8 = 1u8 << bit_index;
        let ghost pre = bytes@;
        let b = bytes[byte_index];

        // If it's on, set the bit flag
        // If it's off, clear the bit flag
        match coils[i] {
            Coil::On => bytes[byte_index] = b | bit_flag,
            Coil::Off => bytes[byte_index] = b & !bit_flag,
        }

        proof {
            assert forall|p: int|
                0 <= p < i + 1 implies #[trigger] coils@[p] == (if nth_bit(
                bytes@[p / 8],
                (p % 8) as u8,
            ) {
                Coil::On
            } else {
                Coil::Off
            }) by {
                let k = (p % 8) as u8;
                if p < i {
                    if p / 8 == byte_index && p % 8 == bit_index {
                        // two distinct positions cannot share byte and bit
                        lemma_position_unique(p, i as int);
                        assert(false);
                    }
                    if p / 8 == byte_index {
                        if coils@[i as int] is On {
                            lemma_bit_or(b, bit_index, k);
                        } else {
                            lemma_bit_clear(b, bit_index, k);
                        }
                        assert(nth_bit(bytes@[p / 8], k) == nth_bit(pre[p / 8], k));
                    }
                } else {
                    if coils@[i as int] is On {
                        lemma_bit_or(b, bit_index, bit_index);
                    } else {
                        lemma_bit_clear(b, bit_index, bit_index);
                    }
                    assert(nth_bit(bytes@[byte_index as int], bit_index) == (coils@[i as int]
                        == Coil::On));
                    assert(coils@[i as int] is On || coils@[i as int] is Off);
                }
            }
            assert forall|bi: int, off: u8|
                0 <= bi < needed && off < 8 && 8 * bi + off >= i + 1 implies !(#[trigger] nth_bit(
                bytes@[bi],
                off,
            )) by {
                if bi == byte_index {
                    if off == bit_index {
                        assert(8 * (i as int / 8) + (i as int % 8) == i as int);
                        assert(false);
                    }
                    if coils@[i as int] is On {
                        lemma_bit_or(b, bit_index, off);
                    } else {
                        lemma_bit_clear(b, bit_index, off);
                    }
                }
            }
        }

        i += 1;
    }
}

/// Unpack the given bytes into the given coil slice
///
/// The length of the `coils` slice drives the number of bytes that will be
/// read: byte `i / 8` is read for every coil position `i`.
pub fn unpack_coils(bytes: &[u8], coils: &mut [Coil])
    requires
        old(coils)@.len() + 8 <= usize::MAX,
        bytes@.len() >= spec_bytes_needed(old(coils)@.len() as int),
    ensures
        final(coils)@.len() == old(coils)@.len(),
        coils_packed(final(coils)@, bytes@),
{
    let mut i: usize = 0;
    while i < coils.len()
        invariant
            i <= coils@.len(),
            coils@.len() == old(coils)@.len(),
            coils@.len() + 8 <= usize::MAX,
            bytes@.len() >= spec_bytes_needed(coils@.len() as int),
            forall|p: int|
                0 <= p < i ==> #[trigger] coils@[p] == (if nth_bit(
                    bytes@[p / 8],
                    (p % 8) as u8,
                ) {
                    Coil::On
                } else {
                    Coil::Off
                }),
        decreases coils@.len() - i,
    {
        // The byte this coil is specified in
        let byte_index = i / COILS_PER_BYTE;

        // The bit this coil is specified in
        let bit_index = (i % COILS_PER_BYTE) as u8;

        proof {
            assert(byte_index < spec_bytes_needed(coils@.len() as int));
        }

        let bit_flag: u8 = 1u8 << bit_index;
        let b = bytes[byte_index];

        // If the flag is cleared, the coil is off. Otherwise, it's on
        let value = if b & bit_flag == 0 {
            Coil::Off
        } else {
            Coil::On
        };
        coils[i] = value;

        proof {
            lemma_bit_mask(b, bit_index);
        }

        i += 1;
    }
}

/// Packing is inverted exactly by unpacking: a coil sequence written into a
/// bitfield and a coil sequence of the same length read back out of that
/// bitfield are equal, whatever the number of coils and whatever the pattern
/// of on and off values.
pub proof fn lemma_pack_unpack_roundtrip(coils: Seq<Coil>, bytes: Seq<u8>, out: Seq<Coil>)
    requires
        coils_packed(coils, bytes),
        coils_packed(out, bytes),
        out.len() == coils.len(),
    ensures
        out == coils,
{
    assert forall|i: int| 0 <= i < out.len() implies out[i] == coils[i] by {
        assert(coils[i] == (if nth_bit(bytes[i / 8], (i % 8) as u8) {
            Coil::On
        } else {
            Coil::Off
        }));
    }
    assert(out =~= coils);
}

} // verus!
