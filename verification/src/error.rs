use vstd::prelude::*;

verus! {

/// Why a decoder gave up on its input.
#[derive(Clone, Copy, Debug, PartialEq, Eq, Structural)]
pub enum DecodeError {
    /// A declared length or a fixed layout needs more bytes than are left.
    TruncatedInput,
    /// A value lies outside its legal domain.
    MalformedField,
    /// A bit stream ended before the expected samples were read.
    DecodeExhaustion,
}

} // verus!
