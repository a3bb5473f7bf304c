//! The system timer (SYSTIMER): a 52-bit counter, `Unit0`, watched by an
//! alarm that raises an interrupt when the counter reaches its target.
use vstd::prelude::*;
use crate::bits::{bit_of, field_of, set_bit, set_field, with_bit, with_field};
use crate::interrupt::{disable, enable, routed_and_enabled, InterruptCoreRegs, Priority};
use crate::system::{Peripheral, PeripheralClockControl, SystemRegs, switched};
use crate::time::Duration;
use super::Error;

verus! {

/// The mask of the counter's 52 bits.
pub const BIT_MASK: u64 = 0xF_FFFF_FFFF_FFFF;

/// The mask of the 26-bit period field.
pub const PERIOD_MASK: u64 = 0x3FF_FFFF;

/// `CONF.TARGET0_WORK_EN`: the alarm's comparator is enabled.
pub const CONF_TARGET0_WORK_EN: u32 = 24;

/// `CONF.TIMER_UNIT0_CORE0_STALL_EN`: the counter stalls with the CPU.
pub const CONF_UNIT0_CORE0_STALL_EN: u32 = 28;

/// `TARGET0_CONF.TARGET0_PERIOD_MODE`: the alarm repeats with its period.
pub const TARGET_CONF_PERIOD_MODE: u32 = 30;

/// The width of `TARGET0_CONF.TARGET0_PERIOD`.
pub const TARGET_CONF_PERIOD_WIDTH: u32 = 26;

/// `UNITn_OP.UPDATE`: latches the counter value for reading.
pub const UNIT_OP_UPDATE: u32 = 30;

/// The peripheral interrupt source of the alarm.
pub const SYSTIMER_TARGET0_INTERRUPT: u8 = 37;

/// The system timer's registers.
#[derive(Clone, Copy, PartialEq, Eq, Structural)]
pub struct SystimerRegs {
    /// `CONF`.
    pub conf: u32,
    /// `UNIT0_OP`.
    pub unit0_op: u32,
    /// `UNIT1_OP`.
    pub unit1_op: u32,
    /// `UNIT0_VALUE_HI`: the latched high 20 bits of counter 0.
    pub unit0_value_hi: u32,
    /// `UNIT0_VALUE_LO`: the latched low 32 bits of counter 0.
    pub unit0_value_lo: u32,
    /// `UNIT1_VALUE_HI`.
    pub unit1_value_hi: u32,
    /// `UNIT1_VALUE_LO`.
    pub unit1_value_lo: u32,
    /// `TARGET0_CONF`.
    pub target_conf: u32,
    /// `TARGET0_HI`.
    pub trgt_hi: u32,
    /// `TARGET0_LO`.
    pub trgt_lo: u32,
    /// `COMP0_LOAD`.
    pub comp_load: u32,
    /// `INT_ENA`.
    pub int_ena: u32,
    /// `INT_CLR`.
    pub int_clr: u32,
}

impl SystimerRegs {
    /// The high words hold 20 bits.
    pub open spec fn wf(&self) -> bool {
        &&& self.unit0_value_hi < 0x10_0000
        &&& self.unit1_value_hi < 0x10_0000
    }
}

/// The latched value of counter `ch`.
pub open spec fn count(r: SystimerRegs, ch: int) -> int {
    if ch == 0 {
        r.unit0_value_hi * 0x1_0000_0000 + r.unit0_value_lo
    } else {
        r.unit1_value_hi * 0x1_0000_0000 + r.unit1_value_lo
    }
}

/// The registers with the alarm's comparator enabled or disabled.
pub open spec fn work_enabled(r: SystimerRegs, enable: bool) -> SystimerRegs {
    SystimerRegs { conf: with_bit(r.conf, CONF_TARGET0_WORK_EN, enable), ..r }
}

/// The registers with the counter made to run while the CPU stalls.
pub open spec fn reset_done(r: SystimerRegs) -> SystimerRegs {
    SystimerRegs { conf: with_bit(r.conf, CONF_UNIT0_CORE0_STALL_EN, false), ..r }
}

/// The registers with the alarm's interrupt cleared.
pub open spec fn cleared_interrupt(r: SystimerRegs) -> SystimerRegs {
    SystimerRegs { int_clr: 1, ..r }
}

/// The registers with the alarm's interrupt enabled or disabled.
pub open spec fn interrupt_enabled(r: SystimerRegs, enable: bool) -> SystimerRegs {
    SystimerRegs { int_ena: with_bit(r.int_ena, 0, enable), ..r }
}

/// The registers with the alarm put in period mode or target mode.
pub open spec fn mode_set(r: SystimerRegs, period: bool) -> SystimerRegs {
    SystimerRegs { target_conf: with_bit(r.target_conf, TARGET_CONF_PERIOD_MODE, period), ..r }
}

/// The registers with the alarm's period loaded.
pub open spec fn period_loaded(r: SystimerRegs, value: u32) -> SystimerRegs {
    SystimerRegs { target_conf: with_field(r.target_conf, 0, TARGET_CONF_PERIOD_WIDTH, value), comp_load: 1, ..r }
}

/// The registers with the alarm's target loaded.
pub open spec fn target_set(r: SystimerRegs, value: u64) -> SystimerRegs {
    SystimerRegs {
        trgt_hi: ((value >> 32) as u32) & 0xF_FFFF,
        trgt_lo: (value & 0xFFFF_FFFF) as u32,
        comp_load: 1,
        ..r
    }
}

/// The registers with counter `ch` latched for reading.
pub open spec fn latched(r: SystimerRegs, ch: int) -> SystimerRegs {
    if ch == 0 {
        SystimerRegs { unit0_op: 1u32 << UNIT_OP_UPDATE, ..r }
    } else {
        SystimerRegs { unit1_op: 1u32 << UNIT_OP_UPDATE, ..r }
    }
}

/// The registers with the alarm's target set `ticks` after the counter.
pub open spec fn target_loaded(r: SystimerRegs, ticks: u64) -> SystimerRegs {
    target_set(latched(r, 0), (count(r, 0) + ticks) as u64)
}

/// The timer ticks per second with a crystal of `xtal_hz`: the counter runs
/// at two fifths of the crystal frequency.
pub open spec fn ticks_per_second_of(xtal_hz: u32) -> u64 {
    ((xtal_hz * 4) / 10) as u64
}

/// The ticks of `timeout` with a crystal of `xtal_hz`.
pub open spec fn timeout_ticks(timeout: Duration, xtal_hz: u32) -> int {
    timeout.micros * (ticks_per_second_of(xtal_hz) / 1_000_000)
}

/// The counters run at the crystal frequency times this...
pub const TICKS_MULTIPLIER: u32 = 4;

/// ...divided by this: on average, every 2.5 crystal cycles.
pub const TICKS_DIVIDER: u32 = 10;

/// The system timer driver.
pub struct SystemTimer {
    /// Alarm 0.
    pub alarm0: Alarm,
}

impl SystemTimer {
    /// The tick frequency of the counters, with a crystal of `xtal_hz`.
    pub fn ticks_per_second(xtal_hz: u32) -> (r: u64)
        requires
            xtal_hz * 4 <= u32::MAX,
        ensures
            r == ticks_per_second_of(xtal_hz),
    {
        ((xtal_hz * TICKS_MULTIPLIER) / TICKS_DIVIDER) as u64
    }

    /// Enables the system timer's clock (without resetting it, which would
    /// reset the time since boot) and takes its alarm.
    pub fn new(ctl: &mut PeripheralClockControl, sys: &mut SystemRegs) -> (r: Self)
        requires
            old(ctl).ref_counts.count(Peripheral::Systimer) < usize::MAX,
        ensures
            r.alarm0.comp() == 0,
            r.alarm0.unit() == Unit::Unit0,
            ({
                let prev = old(ctl).ref_counts.count(Peripheral::Systimer);
                &&& final(ctl).ref_counts.counts@ == old(ctl).ref_counts.counts@.update(
                    Peripheral::Systimer.index(), (prev + 1) as usize)
                &&& *final(sys) == if prev == 0 { switched(*old(sys), Peripheral::Systimer, true) } else { *old(sys) }
            }),
    {
        ctl.enable(sys, Peripheral::Systimer);
        SystemTimer { alarm0: Alarm::new() }
    }

    /// The current count of the given unit.
    pub fn unit_value(regs: &mut SystimerRegs, unit: Unit) -> (r: u64)
        requires
            old(regs).wf(),
        ensures
            r == count(*old(regs), unit.ch()),
            *final(regs) == latched(*old(regs), unit.ch()),
    {
        unit.read_count(regs)
    }
}

/// A 52-bit counter.
#[derive(Debug, Clone, Copy, PartialEq, Eq, Structural)]
pub enum Unit {
    /// Unit 0.
    Unit0,
    /// Unit 1.
    Unit1,
}

impl Unit {
    pub open spec fn ch(self) -> int {
        match self {
            Unit::Unit0 => 0,
            Unit::Unit1 => 1,
        }
    }

    fn channel(&self) -> (r: u8)
        ensures
            r == self.ch(),
    {
        match self {
            Unit::Unit0 => 0,
            Unit::Unit1 => 1,
        }
    }

    /// Latches the counter and reads it: low word, high word, and the low
    /// word again until it reads the same, so that the two words belong
    /// together.
    fn read_count(&self, regs: &mut SystimerRegs) -> (r: u64)
        requires
            old(regs).wf(),
        ensures
            r == count(*old(regs), self.ch()),
            *final(regs) == latched(*old(regs), self.ch()),
    {
        let channel = self.channel();
        if channel == 0 {
            regs.unit0_op = 1u32 << UNIT_OP_UPDATE;
        } else {
            regs.unit1_op = 1u32 << UNIT_OP_UPDATE;
        }
        let mut lo_prev = if channel == 0 { regs.unit0_value_lo } else { regs.unit1_value_lo };
        loop
            invariant
                channel == self.ch(),
                lo_prev == if channel == 0 { regs.unit0_value_lo } else { regs.unit1_value_lo },
                *regs == latched(*old(regs), self.ch()),
            decreases 1int,
        {
            let lo = lo_prev;
            let hi = if channel == 0 { regs.unit0_value_hi } else { regs.unit1_value_hi };
            lo_prev = if channel == 0 { regs.unit0_value_lo } else { regs.unit1_value_lo };
            if lo == lo_prev {
                let v = ((hi as u64) << 32) | lo as u64;
                assert(v == (hi as u64) * 0x1_0000_0000u64 + (lo as u64)) by (bit_vector)
                    requires
                        v == ((hi as u64) << 32u64) | (lo as u64);
                return v;
            }
        }
    }
}

/// The modes of a comparator.
#[derive(Clone, Copy, PartialEq, Eq, Structural)]
pub enum ComparatorMode {
    /// The comparator raises an interrupt periodically.
    Period,
    /// The comparator raises an interrupt when the counter reaches the
    /// target.
    Target,
}

/// An alarm: a comparator that watches a counter.
pub struct Alarm {
    comp: u8,
    unit: Unit,
}

impl Alarm {
    /// Only comparator 0, watching `Unit0`, is driven here.
    #[verifier::type_invariant]
    spec fn inv(self) -> bool {
        self.comp == 0 && self.unit == Unit::Unit0
    }

    pub closed spec fn comp(self) -> u8 {
        self.comp
    }

    pub closed spec fn unit(self) -> Unit {
        self.unit
    }

    fn new() -> (r: Self)
        ensures
            r.comp() == 0,
            r.unit() == Unit::Unit0,
    {
        Alarm { comp: 0, unit: Unit::Unit0 }
    }

    /// Another handle on the same alarm; only one of them is to be used at
    /// a time.
    pub fn clone_unchecked(&self) -> (r: Self)
        ensures
            r.comp() == self.comp(),
            r.unit() == self.unit(),
    {
        proof { use_type_invariant(self); }
        Alarm { comp: self.comp, unit: self.unit }
    }

    /// The comparator's number.
    fn channel(&self) -> (r: u8)
        ensures
            r == self.comp(),
            r == 0,
    {
        proof { use_type_invariant(self); }
        self.comp
    }

    /// Enables or disables the comparator.
    fn set_enable(&self, regs: &mut SystimerRegs, enable: bool)
        ensures
            *final(regs) == work_enabled(*old(regs), enable),
    {
        let _ch = self.channel();
        regs.conf = set_bit(regs.conf, CONF_TARGET0_WORK_EN, enable);
    }

    /// Whether the comparator is enabled.
    fn is_enabled(&self, regs: &SystimerRegs) -> (r: bool)
        ensures
            r == bit_of(regs.conf, CONF_TARGET0_WORK_EN),
    {
        crate::bits::bit(regs.conf, CONF_TARGET0_WORK_EN)
    }

    /// Puts the comparator in period mode or target mode.
    fn set_mode(&self, regs: &mut SystimerRegs, mode: ComparatorMode)
        ensures
            *final(regs) == mode_set(*old(regs), mode == ComparatorMode::Period),
    {
        let is_period_mode = match mode {
            ComparatorMode::Period => true,
            ComparatorMode::Target => false,
        };
        regs.target_conf = set_bit(regs.target_conf, TARGET_CONF_PERIOD_MODE, is_period_mode);
    }

    /// The comparator's mode.
    fn mode(&self, regs: &SystimerRegs) -> (r: ComparatorMode)
        ensures
            r == if bit_of(regs.target_conf, TARGET_CONF_PERIOD_MODE) { ComparatorMode::Period } else { ComparatorMode::Target },
    {
        if crate::bits::bit(regs.target_conf, TARGET_CONF_PERIOD_MODE) {
            ComparatorMode::Period
        } else {
            ComparatorMode::Target
        }
    }

    /// Sets how often the comparator raises an interrupt in period mode.
    fn set_period(&self, regs: &mut SystimerRegs, value: u32)
        ensures
            *final(regs) == period_loaded(*old(regs), value),
    {
        regs.target_conf = set_field(regs.target_conf, 0, TARGET_CONF_PERIOD_WIDTH, value);
        regs.comp_load = 1;
    }

    /// Sets the counter value at which the comparator raises an interrupt.
    fn set_target(&self, regs: &mut SystimerRegs, value: u64)
        ensures
            *final(regs) == target_set(*old(regs), value),
    {
        regs.trgt_hi = ((value >> 32) as u32) & 0xF_FFFF;
        regs.trgt_lo = (value & 0xFFFF_FFFF) as u32;
        regs.comp_load = 1;
    }

    /// Routes the alarm's interrupt source for a handler that runs at
    /// `priority`: the source is disabled, then enabled at that priority.
    pub(crate) fn set_interrupt_handler(&self, intr: &mut InterruptCoreRegs, priority: Priority)
        requires
            old(intr).wf(),
            priority != Priority::NoPriority,
        ensures
            final(intr).wf(),
            routed_and_enabled(*old(intr), *final(intr), SYSTIMER_TARGET0_INTERRUPT as int, priority),
    {
        let _ch = self.channel();
        disable(intr, SYSTIMER_TARGET0_INTERRUPT);
        let _ = enable(intr, SYSTIMER_TARGET0_INTERRUPT, priority);
        assert(intr.intr_map@ =~= old(intr).intr_map@.update(
            SYSTIMER_TARGET0_INTERRUPT as int, priority.level() as u32));
    }

    /// Starts the alarm.
    pub fn start(&self, regs: &mut SystimerRegs)
        ensures
            *final(regs) == work_enabled(*old(regs), true),
    {
        self.set_enable(regs, true);
    }

    /// Stops the alarm.
    pub fn stop(&self, regs: &mut SystimerRegs)
        ensures
            *final(regs) == work_enabled(*old(regs), false),
    {
        self.set_enable(regs, false);
    }

    /// Keeps the counter running while the CPU stalls.
    pub fn reset(&self, regs: &mut SystimerRegs)
        ensures
            *final(regs) == reset_done(*old(regs)),
    {
        regs.conf = set_bit(regs.conf, CONF_UNIT0_CORE0_STALL_EN, false);
    }

    /// Whether the alarm is running.
    pub fn is_running(&self, regs: &SystimerRegs) -> (r: bool)
        ensures
            r == bit_of(regs.conf, CONF_TARGET0_WORK_EN),
    {
        self.is_enabled(regs)
    }

    /// Loads `value` into the alarm: as its period in period mode, or as a
    /// target that far after the counter in target mode. A value too wide
    /// for the period field or the counter is refused.
    pub fn load_value(&self, regs: &mut SystimerRegs, value: Duration, xtal_hz: u32) -> (r: Result<(), Error>)
        requires
            old(regs).wf(),
            xtal_hz * 4 <= u32::MAX,
            value.micros * (ticks_per_second_of(xtal_hz) / 1_000_000) <= u64::MAX,
        ensures
            final(regs).wf(),
            ({
                let ticks = timeout_ticks(value, xtal_hz);
                if bit_of(old(regs).target_conf, TARGET_CONF_PERIOD_MODE) {
                    &&& (r is Ok) == (ticks <= PERIOD_MASK)
                    &&& r is Err ==> r == Err::<(), Error>(Error::InvalidTimeout) && *final(regs) == *old(regs)
                    &&& r is Ok ==> *final(regs) == mode_set(mode_set(period_loaded(*old(regs), ticks as u32), false), true)
                } else {
                    &&& (r is Ok) == (ticks <= BIT_MASK)
                    &&& r is Err ==> r == Err::<(), Error>(Error::InvalidTimeout) && *final(regs) == *old(regs)
                    &&& r is Ok ==> *final(regs) == target_loaded(*old(regs), ticks as u64)
                }
            }),
    {
        let mode = self.mode(regs);
        let us = value.as_micros();
        let ticks = us * (SystemTimer::ticks_per_second(xtal_hz) / 1_000_000);
        if mode == ComparatorMode::Period {
            let out_of_range = (ticks & !PERIOD_MASK) != 0;
            assert(out_of_range == (ticks > 0x3FF_FFFFu64)) by (bit_vector)
                requires
                    out_of_range == ((ticks & !0x3FF_FFFFu64) != 0u64);
            if out_of_range {
                return Err(Error::InvalidTimeout);
            }
            self.set_period(regs, ticks as u32);
            self.set_mode(regs, ComparatorMode::Target);
            self.set_mode(regs, ComparatorMode::Period);
        } else {
            let out_of_range = (ticks & !BIT_MASK) != 0;
            assert(out_of_range == (ticks > 0xF_FFFF_FFFF_FFFFu64)) by (bit_vector)
                requires
                    out_of_range == ((ticks & !0xF_FFFF_FFFF_FFFFu64) != 0u64);
            if out_of_range {
                return Err(Error::InvalidTimeout);
            }
            proof { use_type_invariant(self); }
            let v = self.unit.read_count(regs);
            proof { use_type_invariant(self); }
            let t = v + ticks;
            self.set_target(regs, t);
        }
        Ok(())
    }

    /// Selects period mode when `auto_reload`, target mode otherwise.
    pub fn enable_auto_reload(&self, regs: &mut SystimerRegs, auto_reload: bool)
        ensures
            *final(regs) == mode_set(*old(regs), auto_reload),
    {
        let mode = if auto_reload { ComparatorMode::Period } else { ComparatorMode::Target };
        self.set_mode(regs, mode)
    }

    /// Enables or disables the alarm's interrupt.
    pub fn enable_interrupt(&self, regs: &mut SystimerRegs, state: bool)
        ensures
            *final(regs) == interrupt_enabled(*old(regs), state),
    {
        let ch = self.channel();
        regs.int_ena = set_bit(regs.int_ena, ch as u32, state);
    }

    /// Clears the alarm's interrupt.
    pub fn clear_interrupt(&self, regs: &mut SystimerRegs)
        ensures
            *final(regs) == cleared_interrupt(*old(regs)),
    {
        let ch = self.channel();
        regs.int_clr = 1u32 << (ch as u32);
        assert(1u32 << 0u32 == 1u32) by (bit_vector);
    }
}

} // verus!
