//! Single bits and multi-bit fields of 32-bit register words.

use vstd::prelude::*;

verus! {

/// Whether bit `i` of `w` is set.
pub open spec fn bit_of(w: u32, i: u32) -> bool {
    (w >> i) & 1u32 == 1u32
}

/// `w` with bit `i` set to `b` and every other bit kept.
pub open spec fn with_bit(w: u32, i: u32, b: bool) -> u32 {
    if b {
        w | (1u32 << i)
    } else {
        w & !(1u32 << i)
    }
}

/// The field of `w` selected by `mask`, placed `sh` bits up, read back down to bit 0.
pub open spec fn field_of(w: u32, sh: u32, mask: u32) -> u32 {
    (w >> sh) & mask
}

/// `w` with the field selected by `mask << sh` replaced by `v & mask`, every
/// bit outside the field kept.
pub open spec fn with_field(w: u32, sh: u32, mask: u32, v: u32) -> u32 {
    (w & !(mask << sh)) | ((v & mask) << sh)
}

/// A field that fits in the word: shifting its mask up loses no bit.
pub open spec fn field_fits(sh: u32, mask: u32) -> bool {
    sh < 32 && (mask << sh) >> sh == mask
}

/// Writing a bit and reading it back gives the written value; the other bits keep theirs.
pub proof fn lemma_with_bit(w: u32, i: u32, j: u32, b: bool)
    by (bit_vector)
    requires
        i < 32,
        j < 32,
    ensures
        bit_of(with_bit(w, i, b), i) == b,
        j != i ==> bit_of(with_bit(w, i, b), j) == bit_of(w, j),
{
}

/// Writing the same bit value twice leaves the word as writing it once.
pub proof fn lemma_with_bit_idempotent(w: u32, i: u32, b: bool)
    by (bit_vector)
    requires
        i < 32,
    ensures
        with_bit(with_bit(w, i, b), i, b) == with_bit(w, i, b),
{
}

/// Writing the negation of a bit and then its first value restores the word.
pub proof fn lemma_with_bit_restore(w: u32, i: u32)
    by (bit_vector)
    requires
        i < 32,
    ensures
        with_bit(with_bit(w, i, !bit_of(w, i)), i, bit_of(w, i)) == w,
{
}

/// Writing a field and reading it back gives the written value, cut to the mask.
pub proof fn lemma_field_read_back(w: u32, sh: u32, mask: u32, v: u32)
    by (bit_vector)
    requires
        field_fits(sh, mask),
    ensures
        field_of(with_field(w, sh, mask, v), sh, mask) == v & mask,
{
}

/// Writing a field leaves a field that does not overlap it as it was.
pub proof fn lemma_field_frame(w: u32, sh: u32, mask: u32, v: u32, sh2: u32, mask2: u32)
    by (bit_vector)
    requires
        field_fits(sh, mask),
        field_fits(sh2, mask2),
        (mask << sh) & (mask2 << sh2) == 0,
    ensures
        field_of(with_field(w, sh, mask, v), sh2, mask2) == field_of(w, sh2, mask2),
{
}

/// Writing the same field value twice leaves the word as writing it once.
pub proof fn lemma_with_field_idempotent(w: u32, sh: u32, mask: u32, v: u32)
    by (bit_vector)
    ensures
        with_field(with_field(w, sh, mask, v), sh, mask, v) == with_field(w, sh, mask, v),
{
}

/// Reads bit `i` of `w`.
pub fn read_bit(w: u32, i: u32) -> (r: bool)
    requires
        i < 32,
    ensures
        r == bit_of(w, i),
{
    (w >> i) & 1u32 == 1u32
}

/// Returns `w` with bit `i` set to `b`.
pub fn write_bit(w: u32, i: u32, b: bool) -> (r: u32)
    requires
        i < 32,
    ensures
        r == with_bit(w, i, b),
{
    if b {
        w | (1u32 << i)
    } else {
        w & !(1u32 << i)
    }
}

/// Reads the field selected by `mask << sh`.
pub fn read_field(w: u32, sh: u32, mask: u32) -> (r: u32)
    requires
        sh < 32,
    ensures
        r == field_of(w, sh, mask),
{
    (w >> sh) & mask
}

/// Returns `w` with the field selected by `mask << sh` replaced by `v & mask`.
pub fn write_field(w: u32, sh: u32, mask: u32, v: u32) -> (r: u32)
    requires
        sh < 32,
    ensures
        r == with_field(w, sh, mask, v),
{
    (w & !(mask << sh)) | ((v & mask) << sh)
}

} // verus!
