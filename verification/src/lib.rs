//! Typed byte-order handling for fixed-width integers.
//!
//! Binary formats fix the byte order of their integer fields independently of
//! the machine that happens to read them. This crate provides the two pieces
//! needed to work with such fields safely:
//!
//! * [`prim`] — a capability trait over the primitive integers together with
//!   verified conversions between host order and a fixed foreign order;
//! * [`endian`] — wrapper types that tag a stored integer as big-endian or
//!   little-endian and convert only at the point of use.

pub mod endian;
pub mod prim;
