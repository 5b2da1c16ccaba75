//! Decision logic of a small spherical-geometry toolkit: the bracket
//! bookkeeping of a bisection root finder and the naming of compass octants.

pub mod error;
pub mod sign;
pub mod bisection;
pub mod octant;
