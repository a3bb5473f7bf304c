//! Software interrupts: interrupts that software raises.
use vstd::prelude::*;
use crate::system::SystemRegs;

verus! {

/// A software interrupt, raised by writing to the SYSTEM peripheral.
pub struct SoftwareInterrupt<const NUM: u8> {}

impl<const NUM: u8> SoftwareInterrupt<NUM> {
    /// Takes the software interrupt; only one instance of it is to be used at
    /// a time.
    pub fn steal() -> (r: Self) {
        SoftwareInterrupt {}
    }

    /// Triggers this software interrupt. Only software interrupt 3 exists
    /// here.
    pub fn raise(&self, system: &mut SystemRegs)
        requires
            NUM == 3,
        ensures
            *final(system) == (SystemRegs { cpu_intr_from_cpu_3: 1, ..*old(system) }),
    {
        system.cpu_intr_from_cpu_3 = 1;
    }
}

} // verus!
