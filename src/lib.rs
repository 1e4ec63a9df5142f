//! Compressed unit vectors: a direction in three dimensions stored in sixteen bits.
//!
//! A code holds three sign flags (bits 15, 14 and 13) and two magnitude
//! coordinates on a triangular lattice of side 126 (bits 12 to 7, and bits
//! 6 to 0). This crate holds the integer half of the codec: composing a code
//! from the projected lattice coordinates, taking a code apart again, and the
//! lattice points behind each entry of the normalisation table.

mod layout;
mod codec;
mod laws;
mod comp_unit_vec;

pub use layout::{LatticePoint, Signs, Unpacked};
pub use codec::{norm_squared, pack_projected, table_norms, table_point_at, unpack_code};
pub use comp_unit_vec::CompUnitVec;
pub use laws::{lemma_every_code_on_octant, lemma_round_trip_on_lattice, lemma_table_entry_matches_code};
pub use layout::{
    decoded_point, encoder_fold, magnitude_index, norm_sq, octant_point, on_octant, packed_code,
    sign_field, sign_flags, table_point, triangle_fold, x_field, y_field, MAGNITUDE_MASK, SIGN_MASK,
    TABLE_LEN, X_MASK, X_SIGN, Y_MASK, Y_SIGN, Z_SIGN,
};

