//! The random number generator (RNG).
//!
//! The generator gives true random numbers while the RF subsystem or an
//! internal entropy source runs; otherwise its numbers are pseudo-random.
use vstd::prelude::*;

verus! {

/// The RNG's registers.
pub struct RngRegs {
    /// `DATA`: the random number currently available.
    pub data: u32,
}

/// The random number generator driver.
#[derive(Clone, Copy)]
pub struct Rng;

impl Rng {
    /// Takes the random number generator.
    pub fn new() -> (r: Self) {
        Rng
    }

    /// Reads the random number currently available.
    pub fn random(&mut self, regs: &RngRegs) -> (r: u32)
        ensures
            r == regs.data,
    {
        regs.data
    }
}

} // verus!
