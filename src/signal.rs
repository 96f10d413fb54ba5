use vstd::prelude::*;

verus! {

/// The waveform a generator produces.
#[derive(Clone, Copy, PartialEq, Eq, Debug, Structural)]
pub enum ModulationType {
    /// An unmodulated carrier.
    CW,
    /// Amplitude modulation: the modulation strength is the index.
    AM,
    /// Frequency modulation: the modulation strength is the deviation in Hz.
    FM,
    /// Phase modulation: the modulation strength is the index in radians.
    PM,
    /// On/off keying: the modulation strength is the duty cycle.
    Pulse,
    /// A sum of equally spaced tones centered on the carrier.
    Multitone,
}

/// How the phases of a multitone bank are chosen when the bank is (re)built.
#[derive(Clone, Copy, PartialEq, Eq, Debug, Structural)]
pub enum MultitonePhase {
    /// Every tone starts at phase zero.
    Zero,
    /// Phases are drawn uniformly from a generator seeded with the configured seed.
    Random,
    /// Tone `k` of `n` starts at `-pi * k * (k - 1) / n`.
    Schroeder,
}

impl ModulationType {
    /// Whether samples of this kind come from the multitone bank rather than
    /// from the carrier and modulation accumulators.
    pub fn is_multitone(&self) -> (r: bool)
        ensures
            r == (*self == ModulationType::Multitone),
    {
        match self {
            ModulationType::Multitone => true,
            _ => false,
        }
    }
}

} // verus!
