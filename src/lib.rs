//! Exact fixed-point money amounts, counted in mills (thousandths of the base
//! unit) and stored in a 64-bit or 128-bit integer.
use vstd::prelude::*;

pub mod arith;
pub mod mills;
pub mod repr;
pub mod text;

pub use crate::mills::{Mills, MillsError};
pub use crate::repr::Repr;

verus! {

/// Mills stored in an `i64`.
pub type Milli64 = Mills<i64>;

/// Mills stored in a `u64`.
pub type Millu64 = Mills<u64>;

/// Mills stored in an `i128`.
pub type Milli128 = Mills<i128>;

/// Mills stored in a `u128`.
pub type Millu128 = Mills<u128>;

} // verus!
