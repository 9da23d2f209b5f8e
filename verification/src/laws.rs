//! What holds of the operations of this crate for all of their inputs,
//! stated over the sequences of reals that vectors and points are read as.

pub mod algebra;
pub mod cross;
pub mod direction;
pub mod dot;
pub mod planes;
pub mod points;
pub mod projection;
pub mod same;
pub mod sphere;
