//! Chalaxata: a microtonal notation engine.
//!
//! The library translates a case-sensitive syllabic notation into an exact
//! harmonic-ratio representation on a five-dimensional pitch lattice, and
//! plans the synthesis of the resulting tones as cyclic sample tables.

pub mod arith;
pub mod chord;
pub mod laws;
pub mod note;
pub mod parser;
pub mod ratio;
pub mod score;
pub mod session;
pub mod synth;
pub mod vocab;

use vstd::prelude::*;

verus! {

/// The fixed sample rate of every rendered sample stream, in Hz.
pub const SAMPLE_RATE: u32 = 48000;

/// The default reference pitch that a chord is bound to, in hundredths
/// of a hertz (523.26 Hz).
pub const DEFAULT_BASE_CENTIHZ: u64 = 52326;

} // verus!
