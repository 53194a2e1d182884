use vstd::prelude::*;

verus! {

/// How a format relates periods to frequencies.
#[derive(Clone, Copy, Debug, PartialEq, Eq, Structural)]
pub enum FrequencyType {
    AmigaFrequencies,
    LinearFrequencies,
}

impl FrequencyType {
    pub fn default() -> (r: FrequencyType)
        ensures
            r == FrequencyType::LinearFrequencies,
    {
        FrequencyType::LinearFrequencies
    }
}

} // verus!
