//! Fixed-size vectors and matrices over exact integer scalars, with a small
//! algebra of composable geometric transforms (`Shift`, `Linear`) and the
//! reorder algebra that swaps a two-stage affine pipeline's stage order while
//! preserving its effect.

pub mod complex;
pub mod laws;
pub mod linear;
pub mod matrix;
pub mod shift;
pub mod vector;
