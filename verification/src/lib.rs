//! Camera colour-space stage of a raw-development pipeline.
//!
//! Samples, gains and matrix entries are IEEE-754 binary32 numbers held as
//! their bit patterns (`u32`). The library classifies and routes them itself;
//! rounding arithmetic and the colour-science reference formulas are supplied
//! by the caller as functions over bit patterns, and every contract holds for
//! whatever those functions return.

pub mod arith;
pub mod buffer;
pub mod colorspaces;
pub mod ieee;
pub mod pixel;
pub mod reference;
pub mod source;
pub mod whitebalance;
