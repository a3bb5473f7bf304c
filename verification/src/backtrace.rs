//! Backtrace frames, and the description of the exception that a trap
//! reports.
use vstd::prelude::*;

verus! {

/// How far a frame's return address lies after the call instruction.
pub const RA_OFFSET: usize = 4;

/// A frame of a backtrace.
#[derive(Clone, Copy, Debug, PartialEq, Eq, Structural)]
pub struct BacktraceFrame {
    /// The return address of the frame.
    pub pc: usize,
}

impl BacktraceFrame {
    /// The address of the call instruction of the frame.
    pub fn program_counter(&self) -> (r: usize)
        requires
            self.pc >= RA_OFFSET,
        ensures
            r == self.pc - RA_OFFSET,
    {
        self.pc - RA_OFFSET
    }
}

/// Whether `address` is 16-byte aligned and lies in the data RAM, where a
/// frame pointer may point.
pub fn is_valid_ram_address(address: u32) -> (r: bool)
    ensures
        r == (address % 16 == 0 && 0x3FC8_0000 <= address <= 0x3FCE_0000),
{
    if (address & 0xF) != 0 {
        assert(address & 0xF != 0 ==> address % 16 != 0) by (bit_vector);
        return false;
    }
    assert(address & 0xF == 0 ==> address % 16 == 0) by (bit_vector);
    if !(0x3FC8_0000 <= address && address <= 0x3FCE_0000) {
        return false;
    }
    true
}

/// The exception code of a trap's cause.
pub fn exception_code(mcause: usize) -> (r: usize)
    ensures
        r == mcause % 256,
{
    assert(mcause & 0xff == mcause % 256) by (bit_vector);
    mcause & 0xff
}

/// Whether the exception code reports a stack overflow that the stack guard
/// caught.
pub fn is_stack_overflow(code: usize) -> (r: bool)
    ensures
        r == (code == 14),
{
    code == 14
}

/// The name of an exception code.
pub open spec fn exception_name(code: usize) -> Seq<char> {
    if code == 0 { "Instruction address misaligned"@ }
    else if code == 1 { "Instruction access fault"@ }
    else if code == 2 { "Illegal instruction"@ }
    else if code == 3 { "Breakpoint"@ }
    else if code == 4 { "Load address misaligned"@ }
    else if code == 5 { "Load access fault"@ }
    else if code == 6 { "Store/AMO address misaligned"@ }
    else if code == 7 { "Store/AMO access fault"@ }
    else if code == 8 { "Environment call from U-mode"@ }
    else if code == 9 { "Environment call from S-mode"@ }
    else if code == 10 { "Reserved"@ }
    else if code == 11 { "Environment call from M-mode"@ }
    else if code == 12 { "Instruction page fault"@ }
    else if code == 13 { "Load page fault"@ }
    else if code == 14 { "Reserved"@ }
    else if code == 15 { "Store/AMO page fault"@ }
    else { "UNKNOWN"@ }
}

/// The name of an exception code.
pub fn exception_description(code: usize) -> (r: &'static str)
    ensures
        r@ == exception_name(code),
{
    match code {
        0 => "Instruction address misaligned",
        1 => "Instruction access fault",
        2 => "Illegal instruction",
        3 => "Breakpoint",
        4 => "Load address misaligned",
        5 => "Load access fault",
        6 => "Store/AMO address misaligned",
        7 => "Store/AMO access fault",
        8 => "Environment call from U-mode",
        9 => "Environment call from S-mode",
        10 => "Reserved",
        11 => "Environment call from M-mode",
        12 => "Instruction page fault",
        13 => "Load page fault",
        14 => "Reserved",
        15 => "Store/AMO page fault",
        _ => "UNKNOWN",
    }
}

} // verus!
