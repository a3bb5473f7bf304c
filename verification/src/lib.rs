//! A verified model of a hardware abstraction layer for the ESP32-C3.
//!
//! Every peripheral driver here works on a register block of its own type, a
//! plain value that holds the words of the peripheral's registers, so that the
//! effect of each driver call on the hardware is stated exactly in its contract.
use vstd::prelude::*;
use crate::clock::{apb_for, switch_for, Clock, ClockSwitch, Clocks, CpuClock, XtalClock};
use crate::private::Sealed;
use crate::rtc_cntl::{
    power_control_initialised, rtc_initialised, rwdt_disable_writes, swd_disable_writes, LpwrRegs, LpwrValues, Rtc,
};
use crate::system::{switched, PeripheralClockControl, Peripheral, SystemRegs};
use crate::timer::timg::{wdt_src_clk_configured, Timg0, TimgRegs, Wdt};

pub mod app_desc;
pub mod backtrace;
pub mod bits;
pub mod clock;
pub mod config;
pub mod efuse;
pub mod embassy;
pub mod generate;
pub mod gpio;
pub mod heap;
pub mod interrupt;
pub mod logger;
pub mod println;
pub mod private;
pub mod queue;
pub mod regi2c;
pub mod rng;
pub mod rtc_cntl;
pub mod system;
pub mod time;
pub mod timer;
pub mod uart;

verus! {

/// A marker trait for driver modes.
pub trait DriverMode: Sealed {}

/// Marks a driver in blocking mode, the mode drivers are made in.
#[derive(Debug)]
pub struct Blocking;

/// Marks a driver in async mode.
#[derive(Debug)]
pub struct Async;

impl DriverMode for Blocking {}
impl DriverMode for Async {}
impl Sealed for Blocking {}
impl Sealed for Async {}

/// System configuration.
#[derive(Clone, Copy)]
pub struct Config {
    /// The CPU clock configuration.
    pub cpu_clock: CpuClock,
}

impl Config {
    /// The configuration with the given CPU clock.
    pub fn new_and_default(cpu_clock: CpuClock) -> (r: Self)
        ensures
            r.cpu_clock == cpu_clock,
    {
        Config { cpu_clock }
    }
}

/// The peripherals that initialisation sets up.
pub struct Peripherals {
    /// The peripheral clock gates and their users.
    pub clocks: PeripheralClockControl,
    /// The SYSTEM registers.
    pub system: SystemRegs,
    /// The low-power management registers.
    pub lpwr: LpwrRegs,
    /// The registers of timer group 0.
    pub timg0: TimgRegs,
}

/// The SYSTEM registers after unused peripherals are stopped at start-up.
pub open spec fn peripherals_disabled(s: SystemRegs, uart1_count: usize) -> SystemRegs {
    if uart1_count == 0 { switched(s, Peripheral::Uart1, false) } else { s }
}

/// Initialises the system: stops the clocks of unused peripherals,
/// initialises the RTC, disables the super watchdog, the RTC watchdog and
/// the watchdog of timer group 0, and configures the clocks for the CPU
/// speed of `config` with the given crystal.
pub fn init(config: Config, p: &mut Peripherals, xtal_freq: XtalClock) -> (r: (Clocks, ClockSwitch))
    requires
        old(p).clocks.ref_counts.count(Peripheral::Systimer) < usize::MAX,
        old(p).clocks.ref_counts.count(Peripheral::Timg0) < usize::MAX,
        xtal_freq.spec_mhz() <= 4294,
    ensures
        final(p).clocks.ref_counts.count(Peripheral::Systimer) == old(p).clocks.ref_counts.count(Peripheral::Systimer) + 1,
        final(p).clocks.ref_counts.count(Peripheral::Timg0) == old(p).clocks.ref_counts.count(Peripheral::Timg0) + 1,
        final(p).clocks.ref_counts.count(Peripheral::Uart1) == old(p).clocks.ref_counts.count(Peripheral::Uart1),
        final(p).system == power_control_initialised(
            peripherals_disabled(old(p).system, old(p).clocks.ref_counts.count(Peripheral::Uart1))),
        final(p).lpwr.values() == (LpwrValues {
            wdtconfig0: 0,
            wdtwprotect: 0,
            swd_conf: 0x8000_0000,
            swd_wprotect: 0,
            ..rtc_initialised(old(p).lpwr.values())
        }),
        final(p).lpwr.watchdog_writes@ == old(p).lpwr.watchdog_writes@ + swd_disable_writes()
            + rwdt_disable_writes(),
        final(p).timg0 == (TimgRegs { wdtconfig0: 0, wdtwprotect: 0, ..wdt_src_clk_configured(old(p).timg0) }),
        r.1 == switch_for(config.cpu_clock, xtal_freq),
        r.0.cpu_clock.hz == config.cpu_clock.spec_hz(),
        r.0.apb_clock.hz == apb_for(config.cpu_clock, xtal_freq).spec_hz(),
        r.0.xtal_clock.hz == xtal_freq.spec_hz(),
{
    crate::system::disable_peripherals(&mut p.clocks, &mut p.system);
    let mut rtc = Rtc::new(&mut p.lpwr, &mut p.system);
    rtc.swd.disable(&mut p.lpwr);
    rtc.rwdt.disable(&mut p.lpwr);
    let mut wdt = Wdt::<Timg0>::new(&mut p.timg0);
    wdt.disable(&mut p.timg0);
    Clocks::configure(config.cpu_clock, xtal_freq)
}

} // verus!
