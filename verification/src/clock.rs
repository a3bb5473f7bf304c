//! CPU clock control: the CPU, APB and crystal clock frequencies, the choice
//! of clock source when the CPU clock is configured, and the reference count
//! that keeps the PHY clock running while a radio uses it.
use vstd::prelude::*;
use crate::time::Rate;

verus! {

/// A clock with a frequency.
pub trait Clock {
    /// The clock's frequency in hertz.
    spec fn spec_hz(&self) -> int;

    /// The frequency of the clock.
    fn frequency(&self) -> (r: Rate)
        requires
            0 <= self.spec_hz() <= u32::MAX,
        ensures
            r.hz == self.spec_hz();

    /// The frequency of the clock in whole megahertz.
    fn mhz(&self) -> (r: u32)
        requires
            0 <= self.spec_hz() <= u32::MAX,
        ensures
            r == self.spec_hz() / 1_000_000,
    {
        self.frequency().as_mhz()
    }

    /// The frequency of the clock in hertz.
    fn hz(&self) -> (r: u32)
        requires
            0 <= self.spec_hz() <= u32::MAX,
        ensures
            r == self.spec_hz(),
    {
        self.frequency().as_hz()
    }
}

/// The CPU clock speed.
#[derive(Debug, Clone, Copy, PartialEq, Eq, Structural)]
pub enum CpuClock {
    /// 80 MHz.
    _80MHz,
    /// 160 MHz.
    _160MHz,
}

impl CpuClock {
    /// The speed in megahertz.
    pub open spec fn spec_mhz(self) -> u32 {
        match self {
            CpuClock::_80MHz => 80,
            CpuClock::_160MHz => 160,
        }
    }

    /// The speed in megahertz.
    pub fn as_mhz(self) -> (r: u32)
        ensures
            r == self.spec_mhz(),
    {
        match self {
            CpuClock::_80MHz => 80,
            CpuClock::_160MHz => 160,
        }
    }

    /// The highest speed of this chip.
    pub fn max() -> (r: Self)
        ensures
            r == CpuClock::_160MHz,
            forall|c: CpuClock| c.spec_mhz() <= r.spec_mhz(),
    {
        CpuClock::_160MHz
    }
}

impl Default for CpuClock {
    /// 80 MHz.
    fn default() -> (r: Self)
        ensures
            r == CpuClock::_80MHz,
    {
        CpuClock::_80MHz
    }
}

impl Clock for CpuClock {
    open spec fn spec_hz(&self) -> int {
        self.spec_mhz() * 1_000_000
    }

    fn frequency(&self) -> (r: Rate) {
        Rate::from_mhz(self.as_mhz())
    }
}

/// The crystal clock speed.
#[derive(Debug, Clone, Copy, PartialEq, Eq, Structural)]
pub enum XtalClock {
    /// 32 MHz.
    _32M,
    /// 40 MHz.
    _40M,
    /// Another speed, in megahertz.
    Other(u32),
}

impl XtalClock {
    /// The speed in megahertz.
    pub open spec fn spec_mhz(self) -> u32 {
        match self {
            XtalClock::_32M => 32,
            XtalClock::_40M => 40,
            XtalClock::Other(mhz) => mhz,
        }
    }
}

impl Clock for XtalClock {
    open spec fn spec_hz(&self) -> int {
        self.spec_mhz() * 1_000_000
    }

    fn frequency(&self) -> (r: Rate) {
        match self {
            XtalClock::_32M => Rate::from_mhz(32),
            XtalClock::_40M => Rate::from_mhz(40),
            XtalClock::Other(mhz) => Rate::from_mhz(*mhz),
        }
    }
}

/// The APB clock speed.
#[derive(Debug, Clone, Copy, PartialEq, Eq, Structural)]
pub enum ApbClock {
    /// 40 MHz.
    ApbFreq40MHz,
    /// 80 MHz.
    ApbFreq80MHz,
    /// Another speed, in megahertz.
    ApbFreqOther(u32),
}

impl ApbClock {
    /// The speed in megahertz.
    pub open spec fn spec_mhz(self) -> u32 {
        match self {
            ApbClock::ApbFreq40MHz => 40,
            ApbClock::ApbFreq80MHz => 80,
            ApbClock::ApbFreqOther(mhz) => mhz,
        }
    }
}

impl Clock for ApbClock {
    open spec fn spec_hz(&self) -> int {
        self.spec_mhz() * 1_000_000
    }

    fn frequency(&self) -> (r: Rate) {
        match self {
            ApbClock::ApbFreq40MHz => Rate::from_mhz(40),
            ApbClock::ApbFreq80MHz => Rate::from_mhz(80),
            ApbClock::ApbFreqOther(mhz) => Rate::from_mhz(*mhz),
        }
    }
}

/// The crystal frequency that the configuration names: `None` for
/// automatic detection, or a frequency in megahertz, which must be one of the
/// chip's crystals.
pub fn xtal_frequency_from_config(frequency_conf: Option<u32>) -> (r: Option<XtalClock>)
    ensures
        r == match frequency_conf {
            Some(32) => Some(XtalClock::_32M),
            Some(40) => Some(XtalClock::_40M),
            _ => None::<XtalClock>,
        },
{
    match frequency_conf {
        None => None,
        Some(f) => {
            if f == 32 {
                Some(XtalClock::_32M)
            } else if f == 40 {
                Some(XtalClock::_40M)
            } else {
                None
            }
        },
    }
}

/// How the CPU clock is switched when the clocks are configured.
#[derive(Debug, Clone, Copy, PartialEq, Eq, Structural)]
pub enum ClockSwitch {
    /// The clocks stay as they are after boot.
    Keep,
    /// The CPU runs from the crystal, undivided.
    ToXtal,
    /// The CPU runs from the 480 MHz PLL.
    ToPll,
}

/// The clock frequencies.
#[derive(Debug, Clone, Copy, PartialEq, Eq, Structural)]
pub struct Clocks {
    /// The CPU clock frequency.
    pub cpu_clock: Rate,
    /// The APB clock frequency.
    pub apb_clock: Rate,
    /// The crystal clock frequency.
    pub xtal_clock: Rate,
}

/// The APB clock that configuring the CPU clock to `cpu` with crystal `xtal`
/// gives.
pub open spec fn apb_for(cpu: CpuClock, xtal: XtalClock) -> ApbClock {
    if cpu == CpuClock::_80MHz {
        ApbClock::ApbFreq80MHz
    } else if cpu.spec_mhz() <= xtal.spec_mhz() {
        ApbClock::ApbFreqOther(cpu.spec_mhz())
    } else {
        ApbClock::ApbFreq80MHz
    }
}

/// How configuring the CPU clock to `cpu` with crystal `xtal` switches it.
pub open spec fn switch_for(cpu: CpuClock, xtal: XtalClock) -> ClockSwitch {
    if cpu == CpuClock::_80MHz {
        ClockSwitch::Keep
    } else if cpu.spec_mhz() <= xtal.spec_mhz() {
        ClockSwitch::ToXtal
    } else {
        ClockSwitch::ToPll
    }
}

impl Clocks {
    /// Chooses the clocks for the given CPU speed and crystal: the default
    /// speed keeps the clocks of boot; a speed the crystal reaches runs from
    /// the crystal, with the APB clock at the CPU's speed; a faster one runs
    /// from the PLL, with the APB clock at 80 MHz.
    pub fn configure(cpu_clock_speed: CpuClock, xtal_freq: XtalClock) -> (r: (Clocks, ClockSwitch))
        requires
            xtal_freq.spec_mhz() <= 4294,
        ensures
            r.1 == switch_for(cpu_clock_speed, xtal_freq),
            r.0.cpu_clock.hz == cpu_clock_speed.spec_hz(),
            r.0.apb_clock.hz == apb_for(cpu_clock_speed, xtal_freq).spec_hz(),
            r.0.xtal_clock.hz == xtal_freq.spec_hz(),
    {
        let apb_freq;
        let switch;
        if cpu_clock_speed != CpuClock::default() {
            if cpu_clock_speed.mhz() <= xtal_freq.mhz() {
                apb_freq = ApbClock::ApbFreqOther(cpu_clock_speed.mhz());
                switch = ClockSwitch::ToXtal;
            } else {
                apb_freq = ApbClock::ApbFreq80MHz;
                switch = ClockSwitch::ToPll;
            }
        } else {
            apb_freq = ApbClock::ApbFreq80MHz;
            switch = ClockSwitch::Keep;
        }
        (Clocks {
            cpu_clock: cpu_clock_speed.frequency(),
            apb_clock: apb_freq.frequency(),
            xtal_clock: xtal_freq.frequency(),
        }, switch)
    }
}

/// The state of the radio clocks.
pub struct RadioClocks {
    /// How many users keep the PHY clock running.
    pub phy_ref_count: u8,
    /// Whether the PHY clock runs.
    pub phy_enabled: bool,
    /// Whether the Wi-Fi modem clock runs.
    pub wifi_enabled: bool,
    /// Whether the radio clocks were set up.
    pub initialized: bool,
}

impl RadioClocks {
    /// The PHY clock runs exactly while someone uses it.
    pub open spec fn wf(&self) -> bool {
        self.phy_enabled == (self.phy_ref_count > 0)
    }
}

/// The radio clocks after a user of the PHY clock is counted.
pub open spec fn phy_acquired(r: RadioClocks) -> RadioClocks {
    RadioClocks { phy_ref_count: (r.phy_ref_count + 1) as u8, phy_enabled: true, ..r }
}

/// The radio clocks after a user of the PHY clock is counted less.
pub open spec fn phy_released(r: RadioClocks) -> RadioClocks {
    RadioClocks { phy_ref_count: (r.phy_ref_count - 1) as u8, phy_enabled: r.phy_ref_count > 1, ..r }
}

/// Counts a user of the PHY clock; the first one starts it.
pub fn increase_phy_clock_ref_count_internal(radio: &mut RadioClocks)
    requires
        old(radio).wf(),
        old(radio).phy_ref_count < u8::MAX,
    ensures
        *final(radio) == phy_acquired(*old(radio)),
{
    let count = radio.phy_ref_count;
    if count == 0 {
        radio.phy_enabled = true;
    }
    radio.phy_ref_count = count + 1;
}

/// Counts a user of the PHY clock less; the last one stops it.
pub fn decrease_phy_clock_ref_count_internal(radio: &mut RadioClocks)
    requires
        old(radio).wf(),
        old(radio).phy_ref_count > 0,
    ensures
        *final(radio) == phy_released(*old(radio)),
{
    let count = radio.phy_ref_count - 1;
    if count == 0 {
        radio.phy_enabled = false;
    }
    radio.phy_ref_count = count;
}

/// Sets up the radio clocks.
pub fn init_radio_clocks(radio: &mut RadioClocks)
    ensures
        final(radio).initialized,
        final(radio).phy_ref_count == old(radio).phy_ref_count,
        final(radio).phy_enabled == old(radio).phy_enabled,
        final(radio).wifi_enabled == old(radio).wifi_enabled,
{
    radio.initialized = true;
}

/// Keeps the PHY clock running while it exists; it is released with
/// [`PhyClockGuard::release`].
#[derive(Debug)]
pub struct PhyClockGuard {}

impl PhyClockGuard {
    /// Releases the guard: the PHY clock stops if it was the last one.
    pub fn release(self, radio: &mut RadioClocks)
        requires
            old(radio).wf(),
            old(radio).phy_ref_count > 0,
        ensures
            *final(radio) == phy_released(*old(radio)),
    {
        decrease_phy_clock_ref_count_internal(radio);
    }
}

/// The clock functions common to the modem peripherals.
pub trait ModemClockController {
    /// Starts or stops the modem's clock.
    fn enable_modem_clock(&mut self, radio: &mut RadioClocks, enable: bool);

    /// Starts the PHY clock, if it is not running, and takes a guard that
    /// keeps it running.
    fn enable_phy_clock(&self, radio: &mut RadioClocks) -> (r: PhyClockGuard)
        requires
            old(radio).wf(),
            old(radio).phy_ref_count < u8::MAX,
        ensures
            *final(radio) == phy_acquired(*old(radio)),
    {
        increase_phy_clock_ref_count_internal(radio);
        PhyClockGuard {}
    }

    /// Counts a user of the PHY clock less, whatever guards are alive.
    fn decrease_phy_clock_ref_count(&self, radio: &mut RadioClocks)
        requires
            old(radio).wf(),
            old(radio).phy_ref_count > 0,
        ensures
            *final(radio) == phy_released(*old(radio)),
    {
        decrease_phy_clock_ref_count_internal(radio);
    }
}

/// The Wi-Fi peripheral.
pub struct WIFI {}

impl ModemClockController for WIFI {
    fn enable_modem_clock(&mut self, radio: &mut RadioClocks, enable: bool)
        ensures
            final(radio).wifi_enabled == enable,
            final(radio).phy_ref_count == old(radio).phy_ref_count,
            final(radio).phy_enabled == old(radio).phy_enabled,
            final(radio).initialized == old(radio).initialized,
    {
        radio.wifi_enabled = enable;
    }
}

impl WIFI {
    /// Resets the Wi-Fi MAC; the clocks are as they were.
    pub fn reset_wifi_mac(&mut self, radio: &mut RadioClocks)
        ensures
            final(radio).phy_ref_count == old(radio).phy_ref_count,
            final(radio).phy_enabled == old(radio).phy_enabled,
            final(radio).wifi_enabled == old(radio).wifi_enabled,
            final(radio).initialized == old(radio).initialized,
    {
    }
}

/// Taking a PHY clock guard and releasing it leaves the radio clocks as
/// they were: the PHY clock keeps running exactly while a user remains.
pub proof fn lemma_phy_guard_roundtrip(radio: RadioClocks)
    requires
        radio.wf(),
        radio.phy_ref_count < u8::MAX,
    ensures
        phy_acquired(radio).wf(),
        phy_released(phy_acquired(radio)) == radio,
        phy_acquired(radio).phy_enabled,
{
}

} // verus!
