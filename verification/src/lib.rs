//! Kernels of a block-based audio engine: the analyser's time-domain ring
//! and the bookkeeping of its frequency pass, and the oscillator's waveform
//! descriptors and control messages.
//!
//! Samples are carried as the bit patterns of IEEE-754 single-precision
//! numbers (`u32`). The kernels move and select samples; the arithmetic on
//! them is supplied by the caller.

pub mod analysis;
pub mod node;

use vstd::prelude::*;

verus! {

/// Number of samples that are rendered as one block.
pub const RENDER_QUANTUM_SIZE: usize = 128;

} // verus!
