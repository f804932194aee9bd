//! Audio nodes.

pub mod oscillator;
