//! Composing and taking apart codes.
use vstd::prelude::*;

use crate::layout::{
    decoded_point, magnitude_index, norm_sq, octant_point, on_octant, packed_code, sign_flags,
    table_point, LatticePoint, Signs, Unpacked, MAGNITUDE_MASK, TABLE_LEN, X_MASK, X_SIGN, Y_MASK,
    Y_SIGN, Z_SIGN,
};

verus! {

proof fn lemma_x_field_bits(fx: i64)
    by (bit_vector)
    ensures
        ((fx as u16) << 7u16) == ((fx * 128) as u16),
{
}

/// Composes a code from the sign flags of a vector and its projected lattice
/// coordinates (the truncated products of `|x|` and `|y|` with the projection
/// weight). Coordinates off the lattice are kept as the bit layout takes
/// them: folded, shifted and truncated to sixteen bits.
pub fn pack_projected(signs: Signs, xbits: i32, ybits: i32) -> (code: u16)
    ensures
        code == packed_code(signs, xbits as int, ybits as int),
{
    let xs: u16 = if signs.x { X_SIGN } else { 0 };
    let ys: u16 = if signs.y { Y_SIGN } else { 0 };
    let zs: u16 = if signs.z { Z_SIGN } else { 0 };
    let mut fx: i64 = xbits as i64;
    let mut fy: i64 = ybits as i64;
    if xbits >= 64 {
        fx = 127 - fx;
        fy = 127 - fy;
    }
    proof {
        lemma_x_field_bits(fx);
    }
    xs | ys | zs | ((fx as u16) << 7u16) | (fy as u16)
}

pub(crate) proof fn lemma_code_fields(c: u16)
    by (bit_vector)
    ensures
        (c & X_MASK) >> 7u16 < 64,
        c & Y_MASK < 128,
        c & MAGNITUDE_MASK < 0x2000,
        (c & X_MASK) >> 7u16 == (c & MAGNITUDE_MASK) / 128,
        c & Y_MASK == (c & MAGNITUDE_MASK) % 128,
{
}

proof fn lemma_index_fields(i: u16)
    by (bit_vector)
    requires
        i < 0x2000,
    ensures
        i >> 7u16 == i / 128,
        i & Y_MASK == i % 128,
{
}

/// Folds raw coordinates into the triangle and completes them to a lattice
/// point.
fn fold_to_point(a: i32, b: i32) -> (p: LatticePoint)
    requires
        0 <= a < 64,
        0 <= b < 128,
    ensures
        p@ == octant_point(a as int, b as int),
        on_octant(p@),
{
    let mut x: i32 = a;
    let mut y: i32 = b;
    if x + y >= 127 {
        x = 127 - x;
        y = 127 - y;
    }
    LatticePoint { x, y, z: 126 - x - y }
}

/// Takes a code apart: its sign flags, the lattice point that it stands for
/// (raw coordinates folded back when their sum reaches 127), and the index of
/// its normalisation factor, which is the raw magnitude bits.
pub fn unpack_code(code: u16) -> (r: Unpacked)
    ensures
        r.signs == sign_flags(code),
        r.point@ == decoded_point(code),
        r.table_index == magnitude_index(code),
{
    proof {
        lemma_code_fields(code);
    }
    let a: u16 = (code & X_MASK) >> 7u16;
    let b: u16 = code & Y_MASK;
    let point = fold_to_point(a as i32, b as i32);
    let signs = Signs { x: code & X_SIGN != 0, y: code & Y_SIGN != 0, z: code & Z_SIGN != 0 };
    Unpacked { signs, point, table_index: (code & MAGNITUDE_MASK) as usize }
}

/// The lattice point whose length the table entry at `index` normalises.
pub fn table_point_at(index: u16) -> (p: LatticePoint)
    requires
        index < 0x2000,
    ensures
        p@ == table_point(index as int),
        on_octant(p@),
{
    proof {
        lemma_index_fields(index);
    }
    fold_to_point((index >> 7u16) as i32, (index & Y_MASK) as i32)
}

pub(crate) proof fn lemma_norm_sq_lower_bound(x: int, y: int, z: int)
    by (nonlinear_arith)
    requires
        x + y + z == 126,
    ensures
        x * x + y * y + z * z >= 5292,
{
    assert(3 * (x * x + y * y + z * z) - (x + y + z) * (x + y + z) == (x - y) * (x - y) + (y
        - z) * (y - z) + (z - x) * (z - x));
}

proof fn lemma_square_bound(x: int)
    by (nonlinear_arith)
    requires
        -127 <= x <= 127,
    ensures
        0 <= x * x <= 127 * 127,
{
}

/// The squared length of a lattice point that a code can stand for. It is at
/// least 5292, a third of 126 squared, so its reciprocal square root is finite.
pub fn norm_squared(p: LatticePoint) -> (n: u32)
    requires
        on_octant(p@),
    ensures
        n as int == norm_sq(p@),
        n >= 5292,
{
    proof {
        lemma_norm_sq_lower_bound(p.x as int, p.y as int, p.z as int);
        lemma_square_bound(p.x as int);
        lemma_square_bound(p.y as int);
        lemma_square_bound(p.z as int);
    }
    (p.x * p.x + p.y * p.y + p.z * p.z) as u32
}

/// The squared lengths behind the normalisation table: entry `i` is the squared
/// length of the lattice point that magnitude index `i` stands for. The table
/// itself holds the reciprocal square root of each.
pub fn table_norms() -> (v: Vec<u32>)
    ensures
        v.len() == TABLE_LEN,
        forall|i: int|
            0 <= i < TABLE_LEN ==> #[trigger] v[i] as int == norm_sq(table_point(i)) && v[i]
                >= 5292,
{
    let mut v: Vec<u32> = Vec::with_capacity(TABLE_LEN);
    let mut index: u16 = 0;
    while index < 0x2000
        invariant
            index <= 0x2000,
            v.len() == index,
            forall|i: int|
                0 <= i < index ==> #[trigger] v[i] as int == norm_sq(table_point(i)) && v[i]
                    >= 5292,
        decreases 0x2000 - index,
    {
        let p = table_point_at(index);
        v.push(norm_squared(p));
        index = index + 1;
    }
    v
}

} // verus!
