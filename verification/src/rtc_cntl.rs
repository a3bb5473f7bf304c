//! Real-time control and low-power management (RTC_CNTL): its
//! initialisation, the RTC watchdog, the super watchdog, and reset reasons.
use vstd::prelude::*;
use crate::bits::{set_bit, with_bit};
use crate::system::SystemRegs;

verus! {

/// The key that unlocks the RTC watchdog's registers.
pub const RWDT_WKEY: u32 = 0x50D8_3AA1;

/// The key that unlocks the super watchdog's registers.
pub const SWD_WKEY: u32 = 0x8F1D_312A;

/// `SWD_CONF.SWD_AUTO_FEED_EN`: the super watchdog feeds itself.
pub const SWD_CONF_AUTO_FEED_EN: u32 = 31;

/// `CPU_PER_CONF.CPU_WAIT_MODE_FORCE_ON`: the CPU clock stays on in WAITI.
pub const CPU_PER_CONF_WAIT_MODE_FORCE_ON: u32 = 3;

/// The LPWR registers that the watchdogs' write protection guards, and the
/// keys that lift it.
#[derive(Debug, Clone, Copy, PartialEq, Eq, Structural)]
pub enum LpwrReg {
    /// `WDTCONFIG0`, the RTC watchdog's configuration.
    WdtConfig0,
    /// `WDTWPROTECT`, the RTC watchdog's write protection.
    WdtWprotect,
    /// `SWD_CONF`, the super watchdog's configuration.
    SwdConf,
    /// `SWD_WPROTECT`, the super watchdog's write protection.
    SwdWprotect,
}

/// The values of the low-power management registers.
pub struct LpwrValues {
    /// `INT_ENA`.
    pub int_ena: u32,
    /// `INT_CLR`.
    pub int_clr: u32,
    /// `WDTCONFIG0`.
    pub wdtconfig0: u32,
    /// `WDTWPROTECT`.
    pub wdtwprotect: u32,
    /// `SWD_CONF`.
    pub swd_conf: u32,
    /// `SWD_WPROTECT`.
    pub swd_wprotect: u32,
}

/// The low-power management (LPWR) registers, with the writes made to the
/// watchdogs' registers in the order they were made.
pub struct LpwrRegs {
    /// `INT_ENA`.
    pub int_ena: u32,
    /// `INT_CLR`.
    pub int_clr: u32,
    /// `WDTCONFIG0`.
    pub wdtconfig0: u32,
    /// `WDTWPROTECT`.
    pub wdtwprotect: u32,
    /// `SWD_CONF`.
    pub swd_conf: u32,
    /// `SWD_WPROTECT`.
    pub swd_wprotect: u32,
    /// Each write to a watchdog register: the register and the value written.
    pub watchdog_writes: Vec<(LpwrReg, u32)>,
}

impl LpwrRegs {
    /// The registers' values.
    pub open spec fn values(self) -> LpwrValues {
        LpwrValues {
            int_ena: self.int_ena,
            int_clr: self.int_clr,
            wdtconfig0: self.wdtconfig0,
            wdtwprotect: self.wdtwprotect,
            swd_conf: self.swd_conf,
            swd_wprotect: self.swd_wprotect,
        }
    }
}

/// The writes that disable the RTC watchdog: the key that unlocks its
/// registers, a zero configuration, and the lock.
pub open spec fn rwdt_disable_writes() -> Seq<(LpwrReg, u32)> {
    seq![(LpwrReg::WdtWprotect, RWDT_WKEY), (LpwrReg::WdtConfig0, 0u32), (LpwrReg::WdtWprotect, 0u32)]
}

/// The writes that disable the super watchdog: the key that unlocks its
/// registers, a configuration in which it feeds itself, and the lock.
pub open spec fn swd_disable_writes() -> Seq<(LpwrReg, u32)> {
    seq![(LpwrReg::SwdWprotect, SWD_WKEY), (LpwrReg::SwdConf, 0x8000_0000u32), (LpwrReg::SwdWprotect, 0u32)]
}

/// Writes `value` to the RTC watchdog's `WDTCONFIG0`: the write takes effect
/// only while the watchdog's registers are unlocked.
fn write_wdtconfig0(regs: &mut LpwrRegs, value: u32)
    ensures
        final(regs).values() == (LpwrValues {
            wdtconfig0: if old(regs).wdtwprotect == RWDT_WKEY { value } else { old(regs).wdtconfig0 },
            ..old(regs).values()
        }),
        final(regs).watchdog_writes@ == old(regs).watchdog_writes@.push((LpwrReg::WdtConfig0, value)),
{
    regs.watchdog_writes.push((LpwrReg::WdtConfig0, value));
    if regs.wdtwprotect == RWDT_WKEY {
        regs.wdtconfig0 = value;
    }
}

/// Writes `value` to the RTC watchdog's `WDTWPROTECT`.
fn write_wdtwprotect(regs: &mut LpwrRegs, value: u32)
    ensures
        final(regs).values() == (LpwrValues { wdtwprotect: value, ..old(regs).values() }),
        final(regs).watchdog_writes@ == old(regs).watchdog_writes@.push((LpwrReg::WdtWprotect, value)),
{
    regs.watchdog_writes.push((LpwrReg::WdtWprotect, value));
    regs.wdtwprotect = value;
}

/// Writes `value` to the super watchdog's `SWD_CONF`: the write takes effect
/// only while the super watchdog's registers are unlocked.
fn write_swd_conf(regs: &mut LpwrRegs, value: u32)
    ensures
        final(regs).values() == (LpwrValues {
            swd_conf: if old(regs).swd_wprotect == SWD_WKEY { value } else { old(regs).swd_conf },
            ..old(regs).values()
        }),
        final(regs).watchdog_writes@ == old(regs).watchdog_writes@.push((LpwrReg::SwdConf, value)),
{
    regs.watchdog_writes.push((LpwrReg::SwdConf, value));
    if regs.swd_wprotect == SWD_WKEY {
        regs.swd_conf = value;
    }
}

/// Writes `value` to the super watchdog's `SWD_WPROTECT`.
fn write_swd_wprotect(regs: &mut LpwrRegs, value: u32)
    ensures
        final(regs).values() == (LpwrValues { swd_wprotect: value, ..old(regs).values() }),
        final(regs).watchdog_writes@ == old(regs).watchdog_writes@.push((LpwrReg::SwdWprotect, value)),
{
    regs.watchdog_writes.push((LpwrReg::SwdWprotect, value));
    regs.swd_wprotect = value;
}

/// The registers after the RTC is initialised: its interrupts disabled
/// and cleared.
pub open spec fn rtc_initialised(r: LpwrValues) -> LpwrValues {
    LpwrValues { int_ena: 0, int_clr: u32::MAX, ..r }
}

/// The SYSTEM registers after power control is initialised: the CPU clock
/// is closed when the CPU waits for an interrupt.
pub open spec fn power_control_initialised(s: SystemRegs) -> SystemRegs {
    SystemRegs { cpu_per_conf: with_bit(s.cpu_per_conf, CPU_PER_CONF_WAIT_MODE_FORCE_ON, false), ..s }
}

/// Initialises power control: the CPU clock is closed when the CPU waits for
/// an interrupt.
fn power_control_init(sys: &mut SystemRegs)
    ensures
        *final(sys) == power_control_initialised(*old(sys)),
{
    sys.cpu_per_conf = set_bit(sys.cpu_per_conf, CPU_PER_CONF_WAIT_MODE_FORCE_ON, false);
}

/// Initialises the RTC: power control, then its interrupts disabled and
/// cleared.
pub fn init(lpwr: &mut LpwrRegs, sys: &mut SystemRegs)
    ensures
        final(lpwr).values() == rtc_initialised(old(lpwr).values()),
        final(lpwr).watchdog_writes@ == old(lpwr).watchdog_writes@,
        *final(sys) == power_control_initialised(*old(sys)),
{
    power_control_init(sys);
    lpwr.int_ena = 0;
    lpwr.int_clr = u32::MAX;
}

/// Low-power management.
pub struct Rtc {
    /// The RTC watchdog timer.
    pub rwdt: Rwdt,
    /// The super watchdog.
    pub swd: Swd,
}

impl Rtc {
    /// Initialises the RTC and takes its watchdogs.
    pub fn new(lpwr: &mut LpwrRegs, sys: &mut SystemRegs) -> (r: Self)
        ensures
            final(lpwr).values() == rtc_initialised(old(lpwr).values()),
            final(lpwr).watchdog_writes@ == old(lpwr).watchdog_writes@,
            *final(sys) == power_control_initialised(*old(sys)),
    {
        init(lpwr, sys);
        Rtc { rwdt: Rwdt::new(), swd: Swd::new() }
    }
}

/// The RTC watchdog timer.
pub struct Rwdt;

impl Rwdt {
    /// Takes the RTC watchdog timer.
    pub fn new() -> (r: Self) {
        Rwdt
    }

    /// Disables the watchdog: unlocks its registers, clears its
    /// configuration, and locks them again, in that order.
    pub fn disable(&mut self, regs: &mut LpwrRegs)
        ensures
            final(regs).values() == (LpwrValues { wdtconfig0: 0, wdtwprotect: 0, ..old(regs).values() }),
            final(regs).watchdog_writes@ == old(regs).watchdog_writes@ + rwdt_disable_writes(),
    {
        self.set_enabled(regs, false);
    }

    /// Locks (with `true`) or unlocks the watchdog's registers.
    fn set_write_protection(&mut self, regs: &mut LpwrRegs, enable: bool)
        ensures
            final(regs).values() == (LpwrValues { wdtwprotect: if enable { 0 } else { RWDT_WKEY }, ..old(regs).values() }),
            final(regs).watchdog_writes@ == old(regs).watchdog_writes@.push(
                (LpwrReg::WdtWprotect, if enable { 0u32 } else { RWDT_WKEY })),
    {
        let wkey = if enable { 0u32 } else { RWDT_WKEY };
        write_wdtwprotect(regs, wkey);
    }

    /// Enables or disables the watchdog, unlocking its registers for the
    /// write and locking them again. Enabling it leaves its configuration
    /// as it is.
    fn set_enabled(&mut self, regs: &mut LpwrRegs, enable: bool)
        ensures
            final(regs).values() == (LpwrValues {
                wdtconfig0: if enable { old(regs).wdtconfig0 } else { 0 },
                wdtwprotect: 0,
                ..old(regs).values()
            }),
            final(regs).watchdog_writes@ == old(regs).watchdog_writes@ + if enable {
                seq![(LpwrReg::WdtWprotect, RWDT_WKEY), (LpwrReg::WdtWprotect, 0u32)]
            } else {
                rwdt_disable_writes()
            },
    {
        self.set_write_protection(regs, false);
        if !enable {
            write_wdtconfig0(regs, 0);
        }
        self.set_write_protection(regs, true);
    }
}

/// The super watchdog.
pub struct Swd;

impl Swd {
    /// Takes the super watchdog.
    pub fn new() -> (r: Self) {
        Swd
    }

    /// Disables the watchdog by letting it feed itself: unlocks its
    /// registers, writes the configuration, and locks them again, in that
    /// order.
    pub fn disable(&mut self, regs: &mut LpwrRegs)
        ensures
            final(regs).values() == (LpwrValues { swd_conf: 0x8000_0000, swd_wprotect: 0, ..old(regs).values() }),
            final(regs).watchdog_writes@ == old(regs).watchdog_writes@ + swd_disable_writes(),
    {
        assert(0u32 | (1u32 << 31u32) == 0x8000_0000u32) by (bit_vector);
        self.set_enabled(regs, false);
    }

    /// Locks (with `true`) or unlocks the watchdog's registers.
    fn set_write_protection(&mut self, regs: &mut LpwrRegs, enable: bool)
        ensures
            final(regs).values() == (LpwrValues { swd_wprotect: if enable { 0 } else { SWD_WKEY }, ..old(regs).values() }),
            final(regs).watchdog_writes@ == old(regs).watchdog_writes@.push(
                (LpwrReg::SwdWprotect, if enable { 0u32 } else { SWD_WKEY })),
    {
        let wkey = if enable { 0u32 } else { SWD_WKEY };
        write_swd_wprotect(regs, wkey);
    }

    /// Enables the watchdog, or disables it by letting it feed itself; the
    /// configuration register is written whole.
    fn set_enabled(&mut self, regs: &mut LpwrRegs, enable: bool)
        ensures
            final(regs).values() == (LpwrValues {
                swd_conf: with_bit(0, SWD_CONF_AUTO_FEED_EN, !enable),
                swd_wprotect: 0,
                ..old(regs).values()
            }),
            final(regs).watchdog_writes@ == old(regs).watchdog_writes@ + seq![
                (LpwrReg::SwdWprotect, SWD_WKEY),
                (LpwrReg::SwdConf, with_bit(0, SWD_CONF_AUTO_FEED_EN, !enable)),
                (LpwrReg::SwdWprotect, 0u32),
            ],
    {
        self.set_write_protection(regs, false);
        let conf = set_bit(0, SWD_CONF_AUTO_FEED_EN, !enable);
        write_swd_conf(regs, conf);
        self.set_write_protection(regs, true);
    }
}

/// The reason for a reset of the chip.
#[derive(Debug, Clone, Copy, PartialEq, Eq, Structural)]
pub enum SocResetReason {
    /// Power on reset. (The same code also stands for a chip brown-out and a chip super watchdog reset.)
    ChipPowerOn,
    /// Software resets the digital core by `RTC_CNTL_SW_SYS_RST`.
    CoreSw,
    /// Deep sleep resets the digital core.
    CoreDeepSleep,
    /// Main watchdog 0 resets the digital core.
    CoreMwdt0,
    /// Main watchdog 1 resets the digital core.
    CoreMwdt1,
    /// The RTC watchdog resets the digital core.
    CoreRtcWdt,
    /// Main watchdog 0 resets CPU 0.
    Cpu0Mwdt0,
    /// Software resets CPU 0 by `RTC_CNTL_SW_PROCPU_RST`.
    Cpu0Sw,
    /// The RTC watchdog resets CPU 0.
    Cpu0RtcWdt,
    /// The VDD voltage is not stable and resets the digital core.
    SysBrownOut,
    /// The RTC watchdog resets the digital core and the RTC module.
    SysRtcWdt,
    /// Main watchdog 1 resets CPU 0.
    Cpu0Mwdt1,
    /// The super watchdog resets the digital core and the RTC module.
    SysSuperWdt,
    /// A glitch on the clock resets the digital core and the RTC module.
    SysClkGlitch,
    /// An eFuse CRC error resets the digital core.
    CoreEfuseCrc,
    /// USB UART resets the digital core.
    CoreUsbUart,
    /// USB JTAG resets the digital core.
    CoreUsbJtag,
    /// A glitch on power resets the digital core.
    CorePwrGlitch,
}

impl SocResetReason {
    /// The reason's code.
    pub open spec fn code(self) -> u8 {
        match self {
            SocResetReason::ChipPowerOn => 0x01,
            SocResetReason::CoreSw => 0x03,
            SocResetReason::CoreDeepSleep => 0x05,
            SocResetReason::CoreMwdt0 => 0x07,
            SocResetReason::CoreMwdt1 => 0x08,
            SocResetReason::CoreRtcWdt => 0x09,
            SocResetReason::Cpu0Mwdt0 => 0x0b,
            SocResetReason::Cpu0Sw => 0x0c,
            SocResetReason::Cpu0RtcWdt => 0x0d,
            SocResetReason::SysBrownOut => 0x0f,
            SocResetReason::SysRtcWdt => 0x10,
            SocResetReason::Cpu0Mwdt1 => 0x11,
            SocResetReason::SysSuperWdt => 0x12,
            SocResetReason::SysClkGlitch => 0x13,
            SocResetReason::CoreEfuseCrc => 0x14,
            SocResetReason::CoreUsbUart => 0x15,
            SocResetReason::CoreUsbJtag => 0x16,
            SocResetReason::CorePwrGlitch => 0x17,
        }
    }

    /// The reason of the given code, if there is one.
    pub fn from_repr(code: u8) -> (r: Option<Self>)
        ensures
            match r {
                Some(reason) => reason.code() == code,
                None => forall|reason: SocResetReason| reason.code() != code,
            },
    {
        match code {
            0x01 => Some(SocResetReason::ChipPowerOn),
            0x03 => Some(SocResetReason::CoreSw),
            0x05 => Some(SocResetReason::CoreDeepSleep),
            0x07 => Some(SocResetReason::CoreMwdt0),
            0x08 => Some(SocResetReason::CoreMwdt1),
            0x09 => Some(SocResetReason::CoreRtcWdt),
            0x0b => Some(SocResetReason::Cpu0Mwdt0),
            0x0c => Some(SocResetReason::Cpu0Sw),
            0x0d => Some(SocResetReason::Cpu0RtcWdt),
            0x0f => Some(SocResetReason::SysBrownOut),
            0x10 => Some(SocResetReason::SysRtcWdt),
            0x11 => Some(SocResetReason::Cpu0Mwdt1),
            0x12 => Some(SocResetReason::SysSuperWdt),
            0x13 => Some(SocResetReason::SysClkGlitch),
            0x14 => Some(SocResetReason::CoreEfuseCrc),
            0x15 => Some(SocResetReason::CoreUsbUart),
            0x16 => Some(SocResetReason::CoreUsbJtag),
            0x17 => Some(SocResetReason::CorePwrGlitch),
            _ => None,
        }
    }
}

/// Distinct reset reasons have distinct codes, so that a code's reason, if
/// any, is the one [`SocResetReason::from_repr`] gives.
pub proof fn lemma_reset_reason_codes_distinct(a: SocResetReason, b: SocResetReason)
    ensures
        a.code() == b.code() ==> a == b,
{
}

} // verus!
