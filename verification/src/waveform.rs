use crate::xorshift::XorShift32;
use vstd::prelude::*;

verus! {

/// The shape of an oscillation. The translated shapes run from 0 to 1, the
/// others from -1 to 1.
#[derive(Clone, Copy, Debug, PartialEq, Eq, Structural, Hash)]
pub enum Waveform {
    TranslatedSine,
    TranslatedSquare,
    TranslatedRampUp,
    TranslatedRampDown,
    Sine,
    RampDown,
    Square,
    Random,
}

impl Waveform {
    /// The shape of a new oscillator.
    pub fn default() -> (r: Waveform)
        ensures
            r == Waveform::TranslatedSine,
    {
        Waveform::TranslatedSine
    }
}

/// A waveform together with the generator that feeds its random shape.
#[derive(Clone, Copy, Debug)]
pub struct WaveformState {
    pub wf: Waveform,
    pub rng: XorShift32,
}

impl WaveformState {
    /// A state for `wf` whose generator starts from the default seed.
    pub fn new(wf: Waveform) -> (r: WaveformState)
        ensures
            r.wf == wf,
            r.rng.spec_seed() == crate::xorshift::DEFAULT_SEED_32,
    {
        WaveformState { wf, rng: XorShift32::new(None) }
    }
}

} // verus!
