//! System control: peripheral clock gating and reset, counted per peripheral.
use vstd::prelude::*;
use crate::bits::{bit_of, set_bit, with_bit};

verus! {

/// The peripherals whose clocks [`PeripheralClockControl`] gates.
#[derive(Debug, Clone, Copy, PartialEq, Eq, Structural)]
pub enum Peripheral {
    /// Timer Group 0.
    Timg0,
    /// UART1.
    Uart1,
    /// System timer.
    Systimer,
}

/// The number of peripherals.
pub const PERIPHERAL_COUNT: usize = 3;

impl Peripheral {
    /// The peripheral's index in the reference counts.
    pub open spec fn index(self) -> int {
        match self {
            Peripheral::Timg0 => 0,
            Peripheral::Uart1 => 1,
            Peripheral::Systimer => 2,
        }
    }

    /// The peripheral's bit in `PERIP_CLK_EN0` and `PERIP_RST_EN0`.
    pub open spec fn clock_bit(self) -> u32 {
        match self {
            Peripheral::Timg0 => 13,
            Peripheral::Uart1 => 5,
            Peripheral::Systimer => 29,
        }
    }

    pub fn as_index(self) -> (r: usize)
        ensures
            r == self.index(),
    {
        match self {
            Peripheral::Timg0 => 0,
            Peripheral::Uart1 => 1,
            Peripheral::Systimer => 2,
        }
    }

    pub fn bit(self) -> (r: u32)
        ensures
            r == self.clock_bit(),
    {
        match self {
            Peripheral::Timg0 => 13,
            Peripheral::Uart1 => 5,
            Peripheral::Systimer => 29,
        }
    }

    /// The peripherals that stay enabled when the system starts.
    pub open spec fn keep_enabled(self) -> bool {
        self == Peripheral::Systimer || self == Peripheral::Timg0
    }
}

/// The SYSTEM peripheral's registers.
pub struct SystemRegs {
    /// `PERIP_CLK_EN0`: the clock enable of each peripheral.
    pub perip_clk_en0: u32,
    /// `PERIP_RST_EN0`: the reset of each peripheral.
    pub perip_rst_en0: u32,
    /// `CPU_PER_CONF`.
    pub cpu_per_conf: u32,
    /// `CPU_INTR_FROM_CPU_3`.
    pub cpu_intr_from_cpu_3: u32,
}

/// Enables or disables a peripheral's clock.
pub fn enable_internal_racey(regs: &mut SystemRegs, peripheral: Peripheral, enable: bool)
    ensures
        *final(regs) == (SystemRegs { perip_clk_en0: with_bit(old(regs).perip_clk_en0, peripheral.clock_bit(), enable), ..*old(regs) }),
{
    regs.perip_clk_en0 = set_bit(regs.perip_clk_en0, peripheral.bit(), enable);
}

/// Asserts or releases a peripheral's reset.
pub fn assert_peri_reset_racey(regs: &mut SystemRegs, peripheral: Peripheral, reset: bool)
    ensures
        *final(regs) == (SystemRegs { perip_rst_en0: with_bit(old(regs).perip_rst_en0, peripheral.clock_bit(), reset), ..*old(regs) }),
{
    regs.perip_rst_en0 = set_bit(regs.perip_rst_en0, peripheral.bit(), reset);
}

/// How many users each peripheral has.
pub struct RefCounts {
    pub counts: [usize; 3],
}

impl RefCounts {
    /// No peripheral in use.
    pub fn new() -> (r: Self)
        ensures
            forall|i: int| 0 <= i < 3 ==> r.counts@[i] == 0,
    {
        RefCounts { counts: [0, 0, 0] }
    }

    pub open spec fn count(&self, p: Peripheral) -> usize {
        self.counts@[p.index()]
    }
}

/// Controls the enablement of peripheral clocks, counting users.
pub struct PeripheralClockControl {
    pub ref_counts: RefCounts,
}

/// The reference count after an enable (`+1`) or a disable (`-1`) unless
/// forced.
pub open spec fn counted(prev: usize, enable: bool, force: bool) -> int {
    if force { prev as int } else if enable { prev + 1 } else { prev - 1 }
}

/// Whether an enable or disable reaches the hardware: the first enable, the
/// last disable, or a forced one.
pub open spec fn reaches_hardware(prev: usize, enable: bool, force: bool) -> bool {
    force || (enable && prev == 0) || (!enable && prev == 1)
}

/// The SYSTEM registers after a peripheral's clock is switched: a disable
/// pulses the reset first.
pub open spec fn switched(r0: SystemRegs, peripheral: Peripheral, enable: bool) -> SystemRegs {
    let r1 = if enable { r0 } else {
        SystemRegs { perip_rst_en0: with_bit(r0.perip_rst_en0, peripheral.clock_bit(), false), ..r0 }
    };
    SystemRegs { perip_clk_en0: with_bit(r1.perip_clk_en0, peripheral.clock_bit(), enable), ..r1 }
}

impl PeripheralClockControl {
    /// Resets the given peripheral: asserts its reset, then releases it.
    pub fn reset_racey(regs: &mut SystemRegs, peripheral: Peripheral)
        ensures
            *final(regs) == (SystemRegs { perip_rst_en0: with_bit(old(regs).perip_rst_en0, peripheral.clock_bit(), false), ..*old(regs) }),
    {
        assert_peri_reset_racey(regs, peripheral, true);
        assert_peri_reset_racey(regs, peripheral, false);
        proof { crate::bits::lemma_set_then_clear(old(regs).perip_rst_en0, peripheral.clock_bit()); }
    }

    /// Resets the given peripheral.
    pub fn reset(&self, regs: &mut SystemRegs, peripheral: Peripheral)
        ensures
            *final(regs) == (SystemRegs { perip_rst_en0: with_bit(old(regs).perip_rst_en0, peripheral.clock_bit(), false), ..*old(regs) }),
    {
        Self::reset_racey(regs, peripheral);
    }

    /// Counts an enable or a disable of `peripheral`; the first enable and
    /// the last disable switch its clock (a disable resetting it first). A
    /// forced call switches the clock whatever the count, which it leaves.
    /// Returns whether the clock was switched.
    pub fn enable_forced_with_counts(
        peripheral: Peripheral,
        enable: bool,
        force: bool,
        ref_counts: &mut RefCounts,
        regs: &mut SystemRegs,
    ) -> (switched_clock: bool)
        requires
            !force && enable ==> old(ref_counts).count(peripheral) < usize::MAX,
            !force && !enable ==> old(ref_counts).count(peripheral) != 0,
            force && !enable ==> old(ref_counts).count(peripheral) == 0,
        ensures
            ({
                let prev = old(ref_counts).count(peripheral);
                &&& final(ref_counts).counts@ == old(ref_counts).counts@.update(peripheral.index(), counted(prev, enable, force) as usize)
                &&& switched_clock == reaches_hardware(prev, enable, force)
                &&& *final(regs) == if switched_clock { switched(*old(regs), peripheral, enable) } else { *old(regs) }
            }),
    {
        let i = peripheral.as_index();
        let prev = ref_counts.counts[i];
        if !force {
            if enable {
                ref_counts.counts[i] = prev + 1;
                if prev > 0 {
                    return false;
                }
            } else {
                ref_counts.counts[i] = prev - 1;
                if prev > 1 {
                    return false;
                }
            }
        }
        if !enable {
            Self::reset_racey(regs, peripheral);
        }
        enable_internal_racey(regs, peripheral, enable);
        true
    }

    /// Counts an enable of `peripheral`; the first one starts its clock.
    pub fn enable_with_counts(peripheral: Peripheral, ref_counts: &mut RefCounts, regs: &mut SystemRegs) -> (switched_clock: bool)
        requires
            old(ref_counts).count(peripheral) < usize::MAX,
        ensures
            ({
                let prev = old(ref_counts).count(peripheral);
                &&& final(ref_counts).counts@ == old(ref_counts).counts@.update(peripheral.index(), (prev + 1) as usize)
                &&& switched_clock == (prev == 0)
                &&& *final(regs) == if switched_clock { switched(*old(regs), peripheral, true) } else { *old(regs) }
            }),
    {
        Self::enable_forced_with_counts(peripheral, true, false, ref_counts, regs)
    }

    /// Counts an enable of `peripheral`; the first one starts its clock.
    pub fn enable(&mut self, regs: &mut SystemRegs, peripheral: Peripheral) -> (switched_clock: bool)
        requires
            old(self).ref_counts.count(peripheral) < usize::MAX,
        ensures
            ({
                let prev = old(self).ref_counts.count(peripheral);
                &&& final(self).ref_counts.counts@ == old(self).ref_counts.counts@.update(peripheral.index(), (prev + 1) as usize)
                &&& switched_clock == (prev == 0)
                &&& *final(regs) == if switched_clock { switched(*old(regs), peripheral, true) } else { *old(regs) }
            }),
    {
        Self::enable_with_counts(peripheral, &mut self.ref_counts, regs)
    }

    /// Counts a disable of `peripheral`; the last one resets it and stops
    /// its clock.
    pub fn disable(&mut self, regs: &mut SystemRegs, peripheral: Peripheral) -> (switched_clock: bool)
        requires
            old(self).ref_counts.count(peripheral) != 0,
        ensures
            ({
                let prev = old(self).ref_counts.count(peripheral);
                &&& final(self).ref_counts.counts@ == old(self).ref_counts.counts@.update(peripheral.index(), (prev - 1) as usize)
                &&& switched_clock == (prev == 1)
                &&& *final(regs) == if switched_clock { switched(*old(regs), peripheral, false) } else { *old(regs) }
            }),
    {
        Self::enable_forced_with_counts(peripheral, false, false, &mut self.ref_counts, regs)
    }
}

/// Counts the peripherals kept enabled as in use, and resets and stops the
/// clock of every peripheral no one uses.
pub fn disable_peripherals(ctl: &mut PeripheralClockControl, regs: &mut SystemRegs)
    requires
        forall|p: Peripheral| p.keep_enabled() ==> #[trigger] old(ctl).ref_counts.count(p) < usize::MAX,
    ensures
        forall|p: Peripheral| #[trigger] final(ctl).ref_counts.count(p)
            == old(ctl).ref_counts.count(p) + if p.keep_enabled() { 1int } else { 0int },
        *final(regs) == if old(ctl).ref_counts.count(Peripheral::Uart1) == 0 {
            switched(*old(regs), Peripheral::Uart1, false)
        } else {
            *old(regs)
        },
{
    assert(Peripheral::Systimer.keep_enabled() && Peripheral::Timg0.keep_enabled());
    assert(old(ctl).ref_counts.count(Peripheral::Systimer) < usize::MAX);
    assert(old(ctl).ref_counts.count(Peripheral::Timg0) < usize::MAX);
    let counts = &mut ctl.ref_counts;
    counts.counts[2] = counts.counts[2] + 1;
    counts.counts[0] = counts.counts[0] + 1;
    let all = [Peripheral::Timg0, Peripheral::Uart1, Peripheral::Systimer];
    let mut k: usize = 0;
    while k < 3
        invariant
            0 <= k <= 3,
            all@ == seq![Peripheral::Timg0, Peripheral::Uart1, Peripheral::Systimer],
            counts.counts@[0] == old(ctl).ref_counts.counts@[0] + 1,
            counts.counts@[1] == old(ctl).ref_counts.counts@[1],
            counts.counts@[2] == old(ctl).ref_counts.counts@[2] + 1,
            counts.counts@.len() == 3,
            *regs == if k >= 2 && old(ctl).ref_counts.count(Peripheral::Uart1) == 0 {
                switched(*old(regs), Peripheral::Uart1, false)
            } else {
                *old(regs)
            },
        decreases 3 - k,
    {
        let p = all[k];
        let ref_count = counts.counts[p.as_index()];
        if ref_count == 0 {
            disable_unused(p, counts, regs);
        }
        k = k + 1;
    }
}

/// Resets and stops the clock of a peripheral that no one uses, leaving
/// the counts as they are.
fn disable_unused(p: Peripheral, counts: &mut RefCounts, regs: &mut SystemRegs)
    requires
        old(counts).count(p) == 0,
    ensures
        final(counts).counts@ == old(counts).counts@,
        *final(regs) == switched(*old(regs), p, false),
{
    PeripheralClockControl::enable_forced_with_counts(p, false, true, counts, regs);
    assert(final(counts).counts@ =~= old(counts).counts@);
}

/// Keeps a peripheral's clock running while it exists; releasing the last
/// guard of a peripheral resets it and stops its clock.
#[derive(Debug, PartialEq, Eq, Structural)]
pub struct PeripheralGuard {
    pub peripheral: Peripheral,
}

/// The SYSTEM registers after a user of `p` is counted, `prev` users
/// before: for the first, its clock is started and it is reset.
pub open spec fn guard_started(r0: SystemRegs, p: Peripheral, prev: usize) -> SystemRegs {
    if prev == 0 {
        SystemRegs { perip_rst_en0: with_bit(switched(r0, p, true).perip_rst_en0, p.clock_bit(), false), ..switched(r0, p, true) }
    } else {
        r0
    }
}

impl PeripheralGuard {
    /// Counts a user of `p`; if it is the first, resets `p` after starting
    /// its clock and runs `init`.
    pub fn new_with<F: FnOnce()>(ctl: &mut PeripheralClockControl, regs: &mut SystemRegs, p: Peripheral, init: F) -> (g: Self)
        requires
            old(ctl).ref_counts.count(p) < usize::MAX,
            init.requires(()),
        ensures
            g.peripheral == p,
            ({
                let prev = old(ctl).ref_counts.count(p);
                &&& final(ctl).ref_counts.counts@ == old(ctl).ref_counts.counts@.update(p.index(), (prev + 1) as usize)
                &&& *final(regs) == guard_started(*old(regs), p, prev)
            }),
    {
        if ctl.enable(regs, p) {
            ctl.reset(regs, p);
            init();
        }
        PeripheralGuard { peripheral: p }
    }

    /// Counts a user of `p`; if it is the first, starts its clock and resets it.
    pub fn new(ctl: &mut PeripheralClockControl, regs: &mut SystemRegs, p: Peripheral) -> (g: Self)
        requires
            old(ctl).ref_counts.count(p) < usize::MAX,
        ensures
            g.peripheral == p,
            ({
                let prev = old(ctl).ref_counts.count(p);
                &&& final(ctl).ref_counts.counts@ == old(ctl).ref_counts.counts@.update(p.index(), (prev + 1) as usize)
                &&& *final(regs) == guard_started(*old(regs), p, prev)
            }),
    {
        Self::new_with(ctl, regs, p, || {})
    }

    /// Releases the guard: counts one user of the peripheral less.
    pub fn release(self, ctl: &mut PeripheralClockControl, regs: &mut SystemRegs)
        requires
            old(ctl).ref_counts.count(self.peripheral) != 0,
        ensures
            ({
                let prev = old(ctl).ref_counts.count(self.peripheral);
                &&& final(ctl).ref_counts.counts@ == old(ctl).ref_counts.counts@.update(self.peripheral.index(), (prev - 1) as usize)
                &&& *final(regs) == if prev == 1 { switched(*old(regs), self.peripheral, false) } else { *old(regs) }
            }),
    {
        ctl.disable(regs, self.peripheral);
    }
}

/// Enabling a peripheral and then disabling it leaves its count as it was;
/// the clock is switched by both or by neither, and when switched, it ends
/// stopped with the peripheral's reset released.
pub proof fn lemma_enable_then_disable(r0: SystemRegs, p: Peripheral, prev: usize)
    requires
        prev < usize::MAX,
    ensures
        counted(counted(prev, true, false) as usize, false, false) == prev,
        reaches_hardware(prev, true, false) == reaches_hardware(counted(prev, true, false) as usize, false, false),
        switched(switched(r0, p, true), p, false).perip_clk_en0 == with_bit(r0.perip_clk_en0, p.clock_bit(), false),
        switched(switched(r0, p, true), p, false).perip_rst_en0 == with_bit(r0.perip_rst_en0, p.clock_bit(), false),
{
    crate::bits::lemma_set_then_clear(r0.perip_clk_en0, p.clock_bit());
}

} // verus!
