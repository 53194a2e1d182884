use crate::amount::Amount;
use crate::waveform::Waveform;
use vstd::prelude::*;

verus! {

/// The vibrato of a sample or an instrument.
#[derive(Clone, Copy, Debug, PartialEq, Eq, Structural)]
pub struct Vibrato {
    pub waveform: Waveform,
    pub speed: Amount,
    pub depth: Amount,
    pub sweep: Amount,
}

} // verus!
