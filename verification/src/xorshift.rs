use vstd::prelude::*;

verus! {

/// The seed an 8-bit generator starts from when none is given.
pub const DEFAULT_SEED_8: u8 = 251;

/// The seed a 16-bit generator starts from when none is given.
pub const DEFAULT_SEED_16: u16 = 65521;

/// The seed a 32-bit generator starts from when none is given.
pub const DEFAULT_SEED_32: u32 = 4294967291;

/// The seed a 64-bit generator starts from when none is given.
pub const DEFAULT_SEED_64: u64 = 9223372036854775783;

/// One step of the 8-bit xorshift generator, with the shifts 7, 3 and 5.
pub open spec fn step8(s: u8) -> u8 {
    let a = s ^ (s << 7);
    let b = a ^ (a >> 3);
    b ^ (b << 5)
}

/// One step of the 16-bit xorshift generator, with the shifts 7, 9 and 13.
pub open spec fn step16(s: u16) -> u16 {
    let a = s ^ (s << 7);
    let b = a ^ (a >> 9);
    b ^ (b << 13)
}

/// One step of the 32-bit xorshift generator, with the shifts 13, 17 and 5.
pub open spec fn step32(s: u32) -> u32 {
    let a = s ^ (s << 13);
    let b = a ^ (a >> 17);
    b ^ (b << 5)
}

/// One step of the 64-bit xorshift generator, with the shifts 13, 7 and 17.
pub open spec fn step64(s: u64) -> u64 {
    let a = s ^ (s << 13);
    let b = a ^ (a >> 7);
    b ^ (b << 17)
}

/// A generator of 8-bit values by the xorshift method. Not for secrets.
#[derive(Clone, Copy, Debug, PartialEq, Eq, Structural, Hash)]
pub struct XorShift8 {
    state: u8,
}

impl XorShift8 {
    /// The current state, which is also the last value handed out.
    pub closed spec fn spec_seed(self) -> u8 {
        self.state
    }

    /// A generator that starts from `seed`, or from 251. The seed must not be 0.
    pub fn new(seed: Option<u8>) -> (r: XorShift8)
        requires
            seed != Some(0u8),
        ensures
            r.spec_seed() == (match seed {
                Some(v) => v,
                None => DEFAULT_SEED_8,
            }),
    {
        let s: u8 = match seed {
            Some(v) => v,
            None => DEFAULT_SEED_8,
        };
        XorShift8 { state: s }
    }

    pub fn get_seed(&self) -> (r: u8)
        ensures
            r == self.spec_seed(),
    {
        self.state
    }

    /// Advances the generator and hands out its new state.
    pub fn next(&mut self) -> (r: Option<u8>)
        ensures
            final(self).spec_seed() == step8(old(self).spec_seed()),
            r == Some(final(self).spec_seed()),
    {
        self.state = self.state ^ (self.state << 7);
        self.state = self.state ^ (self.state >> 3);
        self.state = self.state ^ (self.state << 5);
        Some(self.state)
    }
}

/// A generator of 16-bit values by the xorshift method. Not for secrets.
#[derive(Clone, Copy, Debug, PartialEq, Eq, Structural, Hash)]
pub struct XorShift16 {
    state: u16,
}

impl XorShift16 {
    /// The current state, which is also the last value handed out.
    pub closed spec fn spec_seed(self) -> u16 {
        self.state
    }

    /// A generator that starts from `seed`, or from 65521. The seed must not be 0.
    pub fn new(seed: Option<u16>) -> (r: XorShift16)
        requires
            seed != Some(0u16),
        ensures
            r.spec_seed() == (match seed {
                Some(v) => v,
                None => DEFAULT_SEED_16,
            }),
    {
        let s: u16 = match seed {
            Some(v) => v,
            None => DEFAULT_SEED_16,
        };
        XorShift16 { state: s }
    }

    pub fn get_seed(&self) -> (r: u16)
        ensures
            r == self.spec_seed(),
    {
        self.state
    }

    /// Advances the generator and hands out its new state.
    pub fn next(&mut self) -> (r: Option<u16>)
        ensures
            final(self).spec_seed() == step16(old(self).spec_seed()),
            r == Some(final(self).spec_seed()),
    {
        self.state = self.state ^ (self.state << 7);
        self.state = self.state ^ (self.state >> 9);
        self.state = self.state ^ (self.state << 13);
        Some(self.state)
    }
}

/// A generator of 32-bit values by the xorshift method. Not for secrets.
#[derive(Clone, Copy, Debug, PartialEq, Eq, Structural, Hash)]
pub struct XorShift32 {
    state: u32,
}

impl XorShift32 {
    /// The current state, which is also the last value handed out.
    pub closed spec fn spec_seed(self) -> u32 {
        self.state
    }

    /// A generator that starts from `seed`, or from 4294967291. The seed must
    /// not be 0.
    pub fn new(seed: Option<u32>) -> (r: XorShift32)
        requires
            seed != Some(0u32),
        ensures
            r.spec_seed() == (match seed {
                Some(v) => v,
                None => DEFAULT_SEED_32,
            }),
    {
        let s: u32 = match seed {
            Some(v) => v,
            None => DEFAULT_SEED_32,
        };
        XorShift32 { state: s }
    }

    pub fn get_seed(&self) -> (r: u32)
        ensures
            r == self.spec_seed(),
    {
        self.state
    }

    /// Advances the generator and hands out its new state.
    pub fn next(&mut self) -> (r: Option<u32>)
        ensures
            final(self).spec_seed() == step32(old(self).spec_seed()),
            r == Some(final(self).spec_seed()),
    {
        self.state = self.state ^ (self.state << 13);
        self.state = self.state ^ (self.state >> 17);
        self.state = self.state ^ (self.state << 5);
        Some(self.state)
    }
}

/// A generator of 64-bit values by the xorshift method. Not for secrets.
#[derive(Clone, Copy, Debug, PartialEq, Eq, Structural, Hash)]
pub struct XorShift64 {
    state: u64,
}

impl XorShift64 {
    /// The current state, which is also the last value handed out.
    pub closed spec fn spec_seed(self) -> u64 {
        self.state
    }

    /// A generator that starts from `seed`, or from 9223372036854775783. The
    /// seed must not be 0.
    pub fn new(seed: Option<u64>) -> (r: XorShift64)
        requires
            seed != Some(0u64),
        ensures
            r.spec_seed() == (match seed {
                Some(v) => v,
                None => DEFAULT_SEED_64,
            }),
    {
        let s: u64 = match seed {
            Some(v) => v,
            None => DEFAULT_SEED_64,
        };
        XorShift64 { state: s }
    }

    pub fn get_seed(&self) -> (r: u64)
        ensures
            r == self.spec_seed(),
    {
        self.state
    }

    /// Advances the generator and hands out its new state.
    pub fn next(&mut self) -> (r: Option<u64>)
        ensures
            final(self).spec_seed() == step64(old(self).spec_seed()),
            r == Some(final(self).spec_seed()),
    {
        self.state = self.state ^ (self.state << 13);
        self.state = self.state ^ (self.state >> 7);
        self.state = self.state ^ (self.state << 17);
        Some(self.state)
    }
}

} // verus!
