//! Laws that relate the encoder, the decoder and the normalisation table.
use vstd::prelude::*;

use crate::codec::{lemma_code_fields, lemma_norm_sq_lower_bound};
use crate::layout::{
    decoded_point, encoder_fold, magnitude_index, norm_sq, on_octant, packed_code, sign_flags,
    table_point, Signs, TABLE_LEN, X_MASK, X_SIGN, Y_MASK, Y_SIGN, Z_SIGN,
};

verus! {

proof fn lemma_composed_fields(sx: bool, sy: bool, sz: bool, a: u16, b: u16)
    by (bit_vector)
    requires
        a < 64,
        b < 128,
    ensures
        ((if sx { X_SIGN } else { 0u16 }) | (if sy { Y_SIGN } else { 0u16 }) | (if sz {
            Z_SIGN
        } else {
            0u16
        }) | ((a * 128) as u16) | b) & X_SIGN != 0 <==> sx,
        ((if sx { X_SIGN } else { 0u16 }) | (if sy { Y_SIGN } else { 0u16 }) | (if sz {
            Z_SIGN
        } else {
            0u16
        }) | ((a * 128) as u16) | b) & Y_SIGN != 0 <==> sy,
        ((if sx { X_SIGN } else { 0u16 }) | (if sy { Y_SIGN } else { 0u16 }) | (if sz {
            Z_SIGN
        } else {
            0u16
        }) | ((a * 128) as u16) | b) & Z_SIGN != 0 <==> sz,
        (((if sx { X_SIGN } else { 0u16 }) | (if sy { Y_SIGN } else { 0u16 }) | (if sz {
            Z_SIGN
        } else {
            0u16
        }) | ((a * 128) as u16) | b) & X_MASK) >> 7u16 == a,
        ((if sx { X_SIGN } else { 0u16 }) | (if sy { Y_SIGN } else { 0u16 }) | (if sz {
            Z_SIGN
        } else {
            0u16
        }) | ((a * 128) as u16) | b) & Y_MASK == b,
{
}

/// Encoding is lossless on the lattice: for sign flags `s` and projected
/// coordinates `(xb, yb)` that are non-negative with a sum of at most 126,
/// decoding the composed code gives back `s` and the point
/// `(xb, yb, 126 - xb - yb)`.
pub proof fn lemma_round_trip_on_lattice(s: Signs, xb: int, yb: int)
    requires
        0 <= xb,
        0 <= yb,
        xb + yb <= 126,
    ensures
        sign_flags(packed_code(s, xb, yb)) == s,
        decoded_point(packed_code(s, xb, yb)) == (xb, yb, 126 - xb - yb),
{
    let (fx, fy) = encoder_fold(xb, yb);
    let a = fx as u16;
    let b = fy as u16;
    assert(a as int == fx && b as int == fy);
    lemma_composed_fields(s.x, s.y, s.z, a, b);
}

/// Every code, including codes that the encoder never composes, decodes to a
/// point of the octant lattice whose squared length is at least 5292, so the
/// decoded direction is never the zero vector.
pub proof fn lemma_every_code_on_octant(c: u16)
    ensures
        on_octant(decoded_point(c)),
        norm_sq(decoded_point(c)) >= 5292,
{
    lemma_code_fields(c);
    let p = decoded_point(c);
    lemma_norm_sq_lower_bound(p.0, p.1, p.2);
}

/// The decoder reads the normalisation factor at the raw magnitude index of a
/// code, and the table entry there normalises exactly the point that the
/// decoder scales.
pub proof fn lemma_table_entry_matches_code(c: u16)
    ensures
        0 <= magnitude_index(c) < TABLE_LEN,
        decoded_point(c) == table_point(magnitude_index(c)),
{
    lemma_code_fields(c);
}

} // verus!
