//! A procedurally grown ASCII tree.
//!
//! The library grows a tree into a fixed-size grid of glyphs from a seed and a
//! step count. Every draw of randomness comes from one seeded generator, so the
//! grid is a function of the seed, the step count and the grid's size.
use vstd::prelude::*;

pub mod direction;
pub mod growth;
pub mod root;
pub mod tree;

verus! {

} // verus!
