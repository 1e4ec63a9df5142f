//! The bit layout of a code, and the lattice that its magnitude bits address.
use vstd::prelude::*;

verus! {

/// Sign flag of the x component (set when x is negative).
pub const X_SIGN: u16 = 0x8000;
/// Sign flag of the y component.
pub const Y_SIGN: u16 = 0x4000;
/// Sign flag of the z component.
pub const Z_SIGN: u16 = 0x2000;
/// The three sign flags together.
pub const SIGN_MASK: u16 = 0xe000;
/// The bits that hold the x lattice coordinate.
pub const X_MASK: u16 = 0x1f80;
/// The bits that hold the y lattice coordinate.
pub const Y_MASK: u16 = 0x007f;
/// The bits of a code below the sign flags: the magnitude index.
pub const MAGNITUDE_MASK: u16 = 0x1fff;
/// The number of entries of the normalisation table: one per magnitude pattern.
pub const TABLE_LEN: usize = 0x2000;

/// Which components of a vector are negative.
#[derive(Clone, Copy, Debug, PartialEq, Eq, Structural)]
pub struct Signs {
    pub x: bool,
    pub y: bool,
    pub z: bool,
}

/// A point of the octant lattice, the integer direction that a code stands for
/// before normalisation.
#[derive(Clone, Copy, Debug, PartialEq, Eq, Structural)]
pub struct LatticePoint {
    pub x: i32,
    pub y: i32,
    pub z: i32,
}

impl View for LatticePoint {
    type V = (int, int, int);

    open spec fn view(&self) -> (int, int, int) {
        (self.x as int, self.y as int, self.z as int)
    }
}

/// The sign flags of a code.
pub open spec fn sign_field(s: Signs) -> u16 {
    (if s.x { X_SIGN } else { 0u16 }) | (if s.y { Y_SIGN } else { 0u16 }) | (if s.z {
        Z_SIGN
    } else {
        0u16
    })
}

/// The encoder's fold: a point whose x coordinate reaches 64 is reflected to
/// `(127 - x, 127 - y)`, which keeps the stored x coordinate below 64.
pub open spec fn encoder_fold(xb: int, yb: int) -> (int, int) {
    if xb >= 64 {
        (127 - xb, 127 - yb)
    } else {
        (xb, yb)
    }
}

/// The code that the encoder composes from the sign flags and the projected
/// coordinates: the folded x coordinate shifted into bits 12 to 7 and the
/// folded y coordinate in the low bits, each truncated to sixteen bits.
pub open spec fn packed_code(s: Signs, xb: int, yb: int) -> u16 {
    let (fx, fy) = encoder_fold(xb, yb);
    sign_field(s) | ((fx * 128) as u16) | (fy as u16)
}

/// The sign flags that a code holds.
pub open spec fn sign_flags(c: u16) -> Signs {
    Signs { x: c & X_SIGN != 0, y: c & Y_SIGN != 0, z: c & Z_SIGN != 0 }
}

/// The raw x coordinate of a code, bits 12 to 7.
pub open spec fn x_field(c: u16) -> int {
    ((c & X_MASK) >> 7u16) as int
}

/// The raw y coordinate of a code, bits 6 to 0.
pub open spec fn y_field(c: u16) -> int {
    (c & Y_MASK) as int
}

/// The magnitude index of a code: its bits with the sign flags cleared.
pub open spec fn magnitude_index(c: u16) -> int {
    (c & MAGNITUDE_MASK) as int
}

/// The triangle fold: raw coordinates whose sum reaches 127 are reflected to
/// `(127 - a, 127 - b)`.
pub open spec fn triangle_fold(a: int, b: int) -> (int, int) {
    if a + b >= 127 {
        (127 - a, 127 - b)
    } else {
        (a, b)
    }
}

/// The lattice point for raw coordinates `a` and `b`: the folded pair, with
/// the third coordinate making the sum 126.
pub open spec fn octant_point(a: int, b: int) -> (int, int, int) {
    let (x, y) = triangle_fold(a, b);
    (x, y, 126 - x - y)
}

/// The lattice point that the decoder scales for a code.
pub open spec fn decoded_point(c: u16) -> (int, int, int) {
    octant_point(x_field(c), y_field(c))
}

/// The lattice point whose length the table entry at `i` normalises:
/// `i >> 7` and `i & 0x7f` as raw coordinates.
pub open spec fn table_point(i: int) -> (int, int, int) {
    octant_point(i / 128, i % 128)
}

/// The points that codes can stand for: coordinates summing to 126, the first
/// two in `[0, 127]` and the third in `[-1, 126]`.
pub open spec fn on_octant(p: (int, int, int)) -> bool {
    &&& 0 <= p.0 <= 127
    &&& 0 <= p.1 <= 127
    &&& -1 <= p.2 <= 126
    &&& p.0 + p.1 + p.2 == 126
}

/// The squared Euclidean length of a lattice point.
pub open spec fn norm_sq(p: (int, int, int)) -> int {
    p.0 * p.0 + p.1 * p.1 + p.2 * p.2
}

/// A code taken apart: its sign flags, the lattice point it stands for, and
/// the index of its normalisation factor in the table.
#[derive(Clone, Copy, Debug, PartialEq, Eq, Structural)]
pub struct Unpacked {
    pub signs: Signs,
    pub point: LatticePoint,
    pub table_index: usize,
}

} // verus!
