//! A falling-sand cellular automaton: a fixed grid of typed particles that
//! move, exchange heat and react once per step, and a renderer that turns the
//! grid into RGBA pixels.
use vstd::prelude::*;

pub mod particle;
pub mod grid;
pub mod thermal;
pub mod sandbox;
pub mod render;

verus! {

} // verus!
