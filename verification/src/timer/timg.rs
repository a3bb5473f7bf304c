//! Timer groups (TIMG): a general-purpose timer and a watchdog timer.
use vstd::prelude::*;
use core::marker::PhantomData;
use crate::bits::{bit_of, field, field_of, set_bit, with_bit};
use crate::system::{Peripheral, PeripheralClockControl, SystemRegs, switched};
use crate::time::{Duration, Rate};
use super::Error;

verus! {

/// `Tx_CONFIG.EN`: the counter runs.
pub const T_CONFIG_EN: u32 = 31;
/// `Tx_CONFIG.INCREASE`: the counter counts up.
pub const T_CONFIG_INCREASE: u32 = 30;
/// `Tx_CONFIG.AUTORELOAD`: the counter reloads at the alarm.
pub const T_CONFIG_AUTORELOAD: u32 = 29;
/// `Tx_CONFIG.DIVIDER`: the prescaler, 16 bits from bit 13.
pub const T_CONFIG_DIVIDER_LSB: u32 = 13;
/// `Tx_CONFIG.ALARM_EN`: the alarm is armed.
pub const T_CONFIG_ALARM_EN: u32 = 10;
/// `Tx_CONFIG.USE_XTAL`: the timer runs from the crystal, not the APB clock.
pub const T_CONFIG_USE_XTAL: u32 = 9;
/// `WDTCONFIG0.WDT_USE_XTAL`: the watchdog runs from the crystal.
pub const WDTCONFIG0_WDT_USE_XTAL: u32 = 21;
/// The key that unlocks the watchdog's registers.
pub const WDT_WKEY: u32 = 0x50D8_3AA1;

/// A timer group's registers.
#[derive(Clone, Copy, PartialEq, Eq, Structural)]
pub struct TimgRegs {
    /// `T0CONFIG`.
    pub t0_config: u32,
    /// `T0LOADLO`.
    pub t0_loadlo: u32,
    /// `T0LOADHI`.
    pub t0_loadhi: u32,
    /// `T0LOAD`.
    pub t0_load: u32,
    /// `T0ALARMLO`.
    pub t0_alarmlo: u32,
    /// `T0ALARMHI`.
    pub t0_alarmhi: u32,
    /// `INT_ENA_TIMERS`.
    pub int_ena: u32,
    /// `INT_CLR_TIMERS`.
    pub int_clr: u32,
    /// `WDTCONFIG0`.
    pub wdtconfig0: u32,
    /// `WDTWPROTECT`.
    pub wdtwprotect: u32,
}

/// The registers with the timer's source clock set to the APB clock.
pub open spec fn src_clk_configured(r: TimgRegs) -> TimgRegs {
    TimgRegs { t0_config: with_bit(r.t0_config, T_CONFIG_USE_XTAL, false), ..r }
}

/// The registers after `value` is written to `WDTCONFIG0`: the write takes
/// effect only while the watchdog's registers are unlocked.
pub open spec fn wdtconfig0_written(r: TimgRegs, value: u32) -> TimgRegs {
    TimgRegs { wdtconfig0: if r.wdtwprotect == WDT_WKEY { value } else { r.wdtconfig0 }, ..r }
}

/// Writes `value` to the write-protected `WDTCONFIG0`.
pub fn write_wdtconfig0(regs: &mut TimgRegs, value: u32)
    ensures
        *final(regs) == wdtconfig0_written(*old(regs), value),
{
    if regs.wdtwprotect == WDT_WKEY {
        regs.wdtconfig0 = value;
    }
}

/// The registers with the watchdog's source clock set to the APB clock (a
/// write that takes effect only while the watchdog is unlocked).
pub open spec fn wdt_src_clk_configured(r: TimgRegs) -> TimgRegs {
    wdtconfig0_written(r, with_bit(r.wdtconfig0, WDTCONFIG0_WDT_USE_XTAL, false))
}

/// A timer group peripheral.
pub trait TimerGroupInstance {
    /// The group's number.
    fn id() -> (r: u8);

    /// Makes the group's timer run from the APB clock.
    fn configure_src_clk(regs: &mut TimgRegs)
        ensures
            *final(regs) == src_clk_configured(*old(regs));

    /// Enables the group's clock.
    fn enable_peripheral(ctl: &mut PeripheralClockControl, sys: &mut SystemRegs)
        requires
            old(ctl).ref_counts.count(Peripheral::Timg0) < usize::MAX,
        ensures
            ({
                let prev = old(ctl).ref_counts.count(Peripheral::Timg0);
                &&& final(ctl).ref_counts.counts@ == old(ctl).ref_counts.counts@.update(
                    Peripheral::Timg0.index(), (prev + 1) as usize)
                &&& *final(sys) == if prev == 0 { switched(*old(sys), Peripheral::Timg0, true) } else { *old(sys) }
            });

    /// Resets the group.
    fn reset_peripheral();

    /// Makes the group's watchdog run from the APB clock.
    fn configure_wdt_src_clk(regs: &mut TimgRegs)
        ensures
            *final(regs) == wdt_src_clk_configured(*old(regs));
}

/// Timer group 0.
pub struct Timg0;

impl TimerGroupInstance for Timg0 {
    fn id() -> (r: u8) {
        0
    }

    fn configure_src_clk(regs: &mut TimgRegs) {
        regs.t0_config = set_bit(regs.t0_config, T_CONFIG_USE_XTAL, false);
    }

    fn enable_peripheral(ctl: &mut PeripheralClockControl, sys: &mut SystemRegs) {
        ctl.enable(sys, Peripheral::Timg0);
    }

    /// Timer group 0 is not reset: the reset breaks the time since boot.
    fn reset_peripheral() {
    }

    fn configure_wdt_src_clk(regs: &mut TimgRegs) {
        let v = set_bit(regs.wdtconfig0, WDTCONFIG0_WDT_USE_XTAL, false);
        write_wdtconfig0(regs, v);
    }
}

/// The clock divisor that a prescaler field selects: 0 divides by 65536,
/// 1 and 2 by 2, any other value by itself.
pub open spec fn divisor_of(field_value: u32) -> u32 {
    if field_value == 0 { 65536 } else if field_value <= 2 { 2 } else { field_value }
}

/// The ticks of `timeout` at `clock_hz / divider` ticks per second, or none
/// where the product overflows.
pub open spec fn ticks_of(micros: u64, clock_hz: u32, divider: u32) -> Option<u64> {
    let ticks_per_sec = (clock_hz / divider) as u64;
    if micros * ticks_per_sec <= u64::MAX {
        Some(((micros * ticks_per_sec) / 1_000_000) as u64)
    } else {
        None
    }
}

/// The ticks of `timeout` at the given clock and divider, rounded down, or
/// `None` where they overflow.
pub fn timeout_to_ticks(timeout: Duration, clock: Rate, divider: u32) -> (r: Option<u64>)
    requires
        divider != 0,
    ensures
        r == ticks_of(timeout.micros, clock.hz, divider),
{
    let micros = timeout.as_micros();
    let ticks_per_sec = (clock.as_hz() / divider) as u64;
    match micros.checked_mul(ticks_per_sec) {
        Some(n) => Some(n / 1_000_000),
        None => None,
    }
}

/// The general-purpose timer of a timer group.
pub struct Timer {
    pub tg: u8,
}

/// The registers with the counter reloaded from zero.
pub open spec fn counter_reset(r: TimgRegs) -> TimgRegs {
    TimgRegs { t0_loadlo: 0, t0_loadhi: 0, t0_load: 1, ..r }
}

/// The registers with a bit of `T0CONFIG` set to `on`.
pub open spec fn config_bit(r: TimgRegs, n: u32, on: bool) -> TimgRegs {
    TimgRegs { t0_config: with_bit(r.t0_config, n, on), ..r }
}

impl Timer {
    /// Another handle on the same timer; only one of them is to be used at
    /// a time.
    pub fn clone_unchecked(&self) -> (r: Self)
        ensures
            r.tg == self.tg,
    {
        Timer { tg: self.tg }
    }

    /// Reloads the counter from zero.
    pub fn reset_counter(&self, regs: &mut TimgRegs)
        ensures
            *final(regs) == counter_reset(*old(regs)),
    {
        regs.t0_loadlo = 0;
        regs.t0_loadhi = 0;
        regs.t0_load = 1;
    }

    /// Starts or stops the counter.
    pub fn set_counter_active(&self, regs: &mut TimgRegs, state: bool)
        ensures
            *final(regs) == config_bit(*old(regs), T_CONFIG_EN, state),
    {
        regs.t0_config = set_bit(regs.t0_config, T_CONFIG_EN, state);
    }

    /// Whether the counter runs.
    pub fn is_counter_active(&self, regs: &TimgRegs) -> (r: bool)
        ensures
            r == bit_of(regs.t0_config, T_CONFIG_EN),
    {
        crate::bits::bit(regs.t0_config, T_CONFIG_EN)
    }

    /// Makes the counter count down or up.
    pub fn set_counter_decrementing(&self, regs: &mut TimgRegs, decrementing: bool)
        ensures
            *final(regs) == config_bit(*old(regs), T_CONFIG_INCREASE, !decrementing),
    {
        regs.t0_config = set_bit(regs.t0_config, T_CONFIG_INCREASE, !decrementing);
    }

    /// Enables or disables reloading at the alarm.
    pub fn set_auto_reload(&self, regs: &mut TimgRegs, auto_reload: bool)
        ensures
            *final(regs) == config_bit(*old(regs), T_CONFIG_AUTORELOAD, auto_reload),
    {
        regs.t0_config = set_bit(regs.t0_config, T_CONFIG_AUTORELOAD, auto_reload);
    }

    /// Arms or disarms the alarm.
    pub fn set_alarm_active(&self, regs: &mut TimgRegs, state: bool)
        ensures
            *final(regs) == config_bit(*old(regs), T_CONFIG_ALARM_EN, state),
    {
        regs.t0_config = set_bit(regs.t0_config, T_CONFIG_ALARM_EN, state);
    }

    /// Restarts the counter from zero, counting up, with the alarm armed.
    pub fn start(&self, regs: &mut TimgRegs)
        ensures
            *final(regs) == config_bit(config_bit(config_bit(counter_reset(config_bit(config_bit(*old(regs),
                T_CONFIG_EN, false), T_CONFIG_ALARM_EN, false)), T_CONFIG_INCREASE, true), T_CONFIG_EN, true),
                T_CONFIG_ALARM_EN, true),
    {
        self.set_counter_active(regs, false);
        self.set_alarm_active(regs, false);
        self.reset_counter(regs);
        self.set_counter_decrementing(regs, false);
        self.set_counter_active(regs, true);
        self.set_alarm_active(regs, true);
    }

    /// Stops the counter.
    pub fn stop(&self, regs: &mut TimgRegs)
        ensures
            *final(regs) == config_bit(*old(regs), T_CONFIG_EN, false),
    {
        self.set_counter_active(regs, false);
    }

    /// The prescaler's clock divisor.
    pub fn divider(&self, regs: &TimgRegs) -> (r: u32)
        ensures
            r == divisor_of(field_of(regs.t0_config, T_CONFIG_DIVIDER_LSB, 16)),
            r >= 2,
    {
        match field(regs.t0_config, T_CONFIG_DIVIDER_LSB, 16) {
            0 => 65536,
            1 | 2 => 2,
            n => n,
        }
    }

    /// Loads the alarm `value` after the counter start, at the given APB
    /// clock. A value whose ticks overflow or exceed the 54-bit counter is
    /// refused.
    pub fn load_value(&self, regs: &mut TimgRegs, value: Duration, apb_clock: Rate) -> (r: Result<(), Error>)
        ensures
            ({
                let ticks = ticks_of(value.micros, apb_clock.hz, divisor_of(field_of(old(regs).t0_config, T_CONFIG_DIVIDER_LSB, 16)));
                match r {
                    Ok(()) => ticks is Some && ticks->0 <= 0x3F_FFFF_FFFF_FFFF
                        && *final(regs) == (TimgRegs {
                            t0_alarmlo: (ticks->0 & 0xFFFF_FFFF) as u32,
                            t0_alarmhi: (ticks->0 >> 32) as u32,
                            ..*old(regs)
                        }),
                    Err(e) => e == Error::InvalidTimeout && *final(regs) == *old(regs)
                        && (ticks is None || ticks->0 > 0x3F_FFFF_FFFF_FFFF),
                }
            }),
    {
        let divider = self.divider(regs);
        let ticks = match timeout_to_ticks(value, apb_clock, divider) {
            Some(t) => t,
            None => {
                return Err(Error::InvalidTimeout);
            },
        };
        let too_wide = (ticks & !0x3F_FFFF_FFFF_FFFFu64) != 0;
        assert(too_wide == (ticks > 0x3F_FFFF_FFFF_FFFFu64)) by (bit_vector)
            requires
                too_wide == ((ticks & !0x3F_FFFF_FFFF_FFFFu64) != 0u64);
        if too_wide {
            return Err(Error::InvalidTimeout);
        }
        let high = (ticks >> 32) as u32;
        let low = (ticks & 0xFFFF_FFFF) as u32;
        regs.t0_alarmlo = low;
        regs.t0_alarmhi = high;
        Ok(())
    }

    /// Clears the timer's interrupt, and keeps the alarm armed only when
    /// the timer reloads.
    pub fn clear_interrupt(&self, regs: &mut TimgRegs)
        ensures
            *final(regs) == config_bit(TimgRegs { int_clr: 1, ..*old(regs) }, T_CONFIG_ALARM_EN,
                bit_of(old(regs).t0_config, T_CONFIG_AUTORELOAD)),
    {
        regs.int_clr = 1;
        let periodic = crate::bits::bit(regs.t0_config, T_CONFIG_AUTORELOAD);
        self.set_alarm_active(regs, periodic);
    }

    /// Enables or disables the timer's interrupt.
    pub fn set_interrupt_enabled(&self, regs: &mut TimgRegs, state: bool)
        ensures
            *final(regs) == (TimgRegs { int_ena: with_bit(old(regs).int_ena, 0, state), ..*old(regs) }),
    {
        regs.int_ena = set_bit(regs.int_ena, 0, state);
    }
}

/// A timer group: a general-purpose timer and a watchdog timer.
pub struct TimerGroup<T> {
    /// Timer 0.
    pub timer0: Timer,
    /// The watchdog timer.
    pub wdt: Wdt<T>,
}

impl<T: TimerGroupInstance> TimerGroup<T> {
    /// Resets and enables the group, runs its timer and watchdog from the
    /// APB clock, and takes them.
    pub fn new(ctl: &mut PeripheralClockControl, sys: &mut SystemRegs, regs: &mut TimgRegs) -> (r: Self)
        requires
            old(ctl).ref_counts.count(Peripheral::Timg0) < usize::MAX,
        ensures
            *final(regs) == wdt_src_clk_configured(src_clk_configured(*old(regs))),
            ({
                let prev = old(ctl).ref_counts.count(Peripheral::Timg0);
                &&& final(ctl).ref_counts.counts@ == old(ctl).ref_counts.counts@.update(
                    Peripheral::Timg0.index(), (prev + 1) as usize)
                &&& *final(sys) == if prev == 0 { switched(*old(sys), Peripheral::Timg0, true) } else { *old(sys) }
            }),
    {
        T::reset_peripheral();
        T::enable_peripheral(ctl, sys);
        T::configure_src_clk(regs);
        let tg = T::id();
        TimerGroup { timer0: Timer { tg }, wdt: Wdt::new(regs) }
    }
}

/// The watchdog timer of a timer group.
pub struct Wdt<TG> {
    phantom: PhantomData<TG>,
}

impl<TG: TimerGroupInstance> Wdt<TG> {
    /// Runs the watchdog from the APB clock and takes it.
    pub fn new(regs: &mut TimgRegs) -> (r: Self)
        ensures
            *final(regs) == wdt_src_clk_configured(*old(regs)),
    {
        TG::configure_wdt_src_clk(regs);
        Wdt { phantom: PhantomData }
    }

    /// Disables the watchdog.
    pub fn disable(&mut self, regs: &mut TimgRegs)
        ensures
            *final(regs) == (TimgRegs { wdtconfig0: 0, wdtwprotect: 0, ..*old(regs) }),
    {
        self.set_wdt_enabled(regs, false);
    }

    /// Enables or disables the watchdog, unlocking its registers for the
    /// write and locking them again. Enabling it leaves its configuration
    /// as it is.
    pub fn set_wdt_enabled(&mut self, regs: &mut TimgRegs, enabled: bool)
        ensures
            *final(regs) == (TimgRegs {
                wdtconfig0: if enabled { old(regs).wdtconfig0 } else { 0 },
                wdtwprotect: 0,
                ..*old(regs)
            }),
    {
        self.set_write_protection(regs, false);
        if !enabled {
            write_wdtconfig0(regs, 0);
        }
        self.set_write_protection(regs, true);
    }

    /// Locks (with `true`) or unlocks the watchdog's registers.
    fn set_write_protection(&mut self, regs: &mut TimgRegs, enable: bool)
        ensures
            *final(regs) == (TimgRegs { wdtwprotect: if enable { 0 } else { WDT_WKEY }, ..*old(regs) }),
    {
        let wkey = if enable { 0u32 } else { WDT_WKEY };
        regs.wdtwprotect = wkey;
    }
}

} // verus!
