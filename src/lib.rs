//! Discrete core of a complex-baseband I/Q signal generator: the modulation
//! kinds, the life cycle and layout of multitone phase banks, the spectrum
//! re-indexing of a block, and the little-endian framing of exported samples.
//!
//! The floating-point synthesis itself (phase accumulators, trigonometry)
//! runs on top of these verified pieces.

pub mod signal;
pub mod multitone;
pub mod spectrum;
pub mod export;

pub use signal::{ModulationType, MultitonePhase};
