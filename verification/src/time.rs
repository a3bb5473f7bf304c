//! Timekeeping: frequencies, durations, and instants since boot.
//!
//! A [`Rate`] counts hertz, a [`Duration`] and an [`Instant`] count
//! microseconds; the conversions between units are those of `fugit`.
use vstd::prelude::*;
use crate::timer::systimer::{count, latched, ticks_per_second_of, SystemTimer, SystimerRegs, Unit};

verus! {

/// `a - b`, wrapping around at 2^64.
pub open spec fn wrapping_sub_u64(a: u64, b: u64) -> u64 {
    if a >= b { (a - b) as u64 } else { (a - b + 0x1_0000_0000_0000_0000int) as u64 }
}

/// `a + b`, wrapping around at 2^64.
pub open spec fn wrapping_add_u64(a: u64, b: u64) -> u64 {
    if a + b <= u64::MAX { (a + b) as u64 } else { (a + b - 0x1_0000_0000_0000_0000int) as u64 }
}

/// `fugit::Rate::<u32, 1, 1>::Hz`: `val` hertz.
#[verifier::external_body]
fn fugit_rate_hz(val: u32) -> (raw: u32)
    ensures
        raw == val,
{
    fugit::Rate::<u32, 1, 1>::Hz(val).raw()
}

/// `fugit::Rate::<u32, 1, 1>::kHz`: `val` kilohertz, counted in hertz.
#[verifier::external_body]
fn fugit_rate_khz(val: u32) -> (raw: u32)
    requires
        val * 1000 <= u32::MAX,
    ensures
        raw == val * 1000,
{
    fugit::Rate::<u32, 1, 1>::kHz(val).raw()
}

/// `fugit::Rate::<u32, 1, 1>::MHz`: `val` megahertz, counted in hertz.
#[verifier::external_body]
fn fugit_rate_mhz(val: u32) -> (raw: u32)
    requires
        val * 1_000_000 <= u32::MAX,
    ensures
        raw == val * 1_000_000,
{
    fugit::Rate::<u32, 1, 1>::MHz(val).raw()
}

/// `fugit::Rate::<u32, 1, 1>::to_Hz`: the whole number of hertz.
#[verifier::external_body]
fn fugit_rate_to_hz(raw: u32) -> (hz: u32)
    ensures
        hz == raw,
{
    fugit::Rate::<u32, 1, 1>::from_raw(raw).to_Hz()
}

/// `fugit::Rate::<u32, 1, 1>::to_MHz`: the whole number of megahertz,
/// rounded down.
#[verifier::external_body]
fn fugit_rate_to_mhz(raw: u32) -> (mhz: u32)
    ensures
        mhz == raw / 1_000_000,
{
    fugit::Rate::<u32, 1, 1>::from_raw(raw).to_MHz()
}

/// `fugit::Duration::<u64, 1, 1_000_000>::micros`: `val` microseconds.
#[verifier::external_body]
fn fugit_duration_micros(val: u64) -> (ticks: u64)
    ensures
        ticks == val,
{
    fugit::Duration::<u64, 1, 1_000_000>::micros(val).ticks()
}

/// `fugit::Duration::<u64, 1, 1_000_000>::secs`: `val` seconds, counted in
/// microseconds.
#[verifier::external_body]
fn fugit_duration_secs(val: u64) -> (ticks: u64)
    requires
        val * 1_000_000 <= u64::MAX,
    ensures
        ticks == val * 1_000_000,
{
    fugit::Duration::<u64, 1, 1_000_000>::secs(val).ticks()
}

/// `fugit::Duration::<u64, 1, 1_000_000>::to_micros`.
#[verifier::external_body]
fn fugit_duration_to_micros(ticks: u64) -> (us: u64)
    ensures
        us == ticks,
{
    fugit::Duration::<u64, 1, 1_000_000>::from_ticks(ticks).to_micros()
}

/// `fugit::Duration::<u64, 1, 1_000_000>::to_millis`: rounded down.
#[verifier::external_body]
fn fugit_duration_to_millis(ticks: u64) -> (ms: u64)
    ensures
        ms == ticks / 1000,
{
    fugit::Duration::<u64, 1, 1_000_000>::from_ticks(ticks).to_millis()
}

/// `Add` of two `fugit::Duration`s, which panics on overflow.
#[verifier::external_body]
fn fugit_duration_add(a: u64, b: u64) -> (sum: u64)
    requires
        a + b <= u64::MAX,
    ensures
        sum == a + b,
{
    (fugit::Duration::<u64, 1, 1_000_000>::from_ticks(a) + fugit::Duration::<u64, 1, 1_000_000>::from_ticks(b)).ticks()
}

/// `Div<u32>` of a `fugit::Duration`: the ticks divided, rounded down.
#[verifier::external_body]
fn fugit_duration_div(ticks: u64, rhs: u32) -> (q: u64)
    requires
        rhs != 0,
    ensures
        q == ticks / (rhs as u64),
{
    (fugit::Duration::<u64, 1, 1_000_000>::from_ticks(ticks) / rhs).ticks()
}

/// `Sub` of two `fugit::Instant`s: the ticks between them, wrapping; it
/// panics where the first is before the second, that is where the wrapped
/// difference is above half the range.
#[verifier::external_body]
fn fugit_instant_sub(a: u64, b: u64) -> (d: u64)
    requires
        wrapping_sub_u64(a, b) <= u64::MAX / 2,
    ensures
        d == wrapping_sub_u64(a, b),
{
    (fugit::Instant::<u64, 1, 1_000_000>::from_ticks(a) - fugit::Instant::<u64, 1, 1_000_000>::from_ticks(b)).ticks()
}

/// `Add<Duration>` of a `fugit::Instant`: the ticks added, wrapping.
#[verifier::external_body]
fn fugit_instant_add(ticks: u64, d: u64) -> (r: u64)
    ensures
        r == wrapping_add_u64(ticks, d),
{
    (fugit::Instant::<u64, 1, 1_000_000>::from_ticks(ticks) + fugit::Duration::<u64, 1, 1_000_000>::from_ticks(d)).ticks()
}

/// A rate or frequency of events, in hertz.
#[derive(Debug, Clone, Copy, PartialEq, Eq, Structural)]
pub struct Rate {
    pub hz: u32,
}

impl Rate {
    /// A rate of `val` hertz.
    pub fn from_hz(val: u32) -> (r: Self)
        ensures
            r.hz == val,
    {
        Rate { hz: fugit_rate_hz(val) }
    }

    /// A rate of `val` kilohertz.
    pub fn from_khz(val: u32) -> (r: Self)
        requires
            val * 1000 <= u32::MAX,
        ensures
            r.hz == val * 1000,
    {
        Rate { hz: fugit_rate_khz(val) }
    }

    /// A rate of `val` megahertz.
    pub fn from_mhz(val: u32) -> (r: Self)
        requires
            val * 1_000_000 <= u32::MAX,
        ensures
            r.hz == val * 1_000_000,
    {
        Rate { hz: fugit_rate_mhz(val) }
    }

    /// The rate in hertz.
    pub fn as_hz(&self) -> (r: u32)
        ensures
            r == self.hz,
    {
        fugit_rate_to_hz(self.hz)
    }

    /// The rate in whole megahertz.
    pub fn as_mhz(&self) -> (r: u32)
        ensures
            r == self.hz / 1_000_000,
    {
        fugit_rate_to_mhz(self.hz)
    }

    /// The period of the rate, in whole microseconds.
    pub fn as_duration(&self) -> (r: Duration)
        requires
            self.hz != 0,
        ensures
            r.micros == 1_000_000int / (self.hz as int),
    {
        Duration::from_micros(1_000_000 / self.as_hz() as u64)
    }
}

/// A duration of time, in microseconds.
#[derive(Debug, Clone, Copy, PartialEq, Eq, Structural)]
pub struct Duration {
    pub micros: u64,
}

impl Duration {
    /// A duration of zero time.
    pub fn zero() -> (r: Duration)
        ensures
            r.micros == 0,
    {
        Duration { micros: 0 }
    }

    /// The longest duration there is.
    pub fn max() -> (r: Duration)
        ensures
            r.micros == u64::MAX,
    {
        Duration { micros: u64::MAX }
    }

    /// A duration of `val` microseconds.
    pub fn from_micros(val: u64) -> (r: Self)
        ensures
            r.micros == val,
    {
        Duration { micros: fugit_duration_micros(val) }
    }

    /// A duration of `val` seconds.
    pub fn from_secs(val: u64) -> (r: Self)
        requires
            val * 1_000_000 <= u64::MAX,
        ensures
            r.micros == val * 1_000_000,
    {
        Duration { micros: fugit_duration_secs(val) }
    }

    /// The duration in microseconds.
    pub fn as_micros(&self) -> (r: u64)
        ensures
            r == self.micros,
    {
        fugit_duration_to_micros(self.micros)
    }

    /// The duration in whole milliseconds.
    pub fn as_millis(&self) -> (r: u64)
        ensures
            r == self.micros / 1000,
    {
        fugit_duration_to_millis(self.micros)
    }

    /// Adds `rhs` to this duration.
    pub fn add_assign(&mut self, rhs: Duration)
        requires
            old(self).micros + rhs.micros <= u64::MAX,
        ensures
            final(self).micros == old(self).micros + rhs.micros,
    {
        self.micros = fugit_duration_add(self.micros, rhs.micros);
    }

    /// The duration divided by `rhs`, rounded down.
    pub fn div(self, rhs: u32) -> (r: Duration)
        requires
            rhs != 0,
        ensures
            r.micros == self.micros / (rhs as u64),
    {
        Duration { micros: fugit_duration_div(self.micros, rhs) }
    }
}

/// An instant in time, in microseconds since boot.
#[derive(Debug, Clone, Copy, PartialEq, Eq, Structural)]
pub struct Instant {
    pub ticks: u64,
}

impl Instant {
    /// The moment the system booted.
    pub fn epoch() -> (r: Instant)
        ensures
            r.ticks == 0,
    {
        Instant { ticks: 0 }
    }

    /// The instant `ticks` microseconds after boot.
    pub fn from_ticks(ticks: u64) -> (r: Self)
        ensures
            r.ticks == ticks,
    {
        Instant { ticks }
    }

    /// The duration from `earlier` to this instant. Instants wrap around:
    /// `earlier` must lie at most half the range before this one.
    pub fn sub(self, earlier: Instant) -> (r: Duration)
        requires
            wrapping_sub_u64(self.ticks, earlier.ticks) <= u64::MAX / 2,
        ensures
            r.micros == wrapping_sub_u64(self.ticks, earlier.ticks),
    {
        Duration { micros: fugit_instant_sub(self.ticks, earlier.ticks) }
    }

    /// The instant `d` after this one, wrapping around.
    pub fn add(self, d: Duration) -> (r: Instant)
        ensures
            r.ticks == wrapping_add_u64(self.ticks, d.micros),
    {
        Instant { ticks: fugit_instant_add(self.ticks, d.micros) }
    }

    /// The elapsed duration since boot.
    pub fn duration_since_epoch(&self) -> (r: Duration)
        requires
            self.ticks <= u64::MAX / 2,
        ensures
            r.micros == self.ticks,
    {
        self.sub(Instant::epoch())
    }

    /// The duration from this instant until `now`.
    pub fn elapsed(&self, now: Instant) -> (r: Duration)
        requires
            wrapping_sub_u64(now.ticks, self.ticks) <= u64::MAX / 2,
        ensures
            r.micros == wrapping_sub_u64(now.ticks, self.ticks),
    {
        now.sub(*self)
    }
}

/// The microseconds since boot that counter 0 shows, with a crystal of
/// `xtal_hz`.
pub open spec fn now_micros(regs: SystimerRegs, xtal_hz: u32) -> int {
    count(regs, 0) / ((ticks_per_second_of(xtal_hz) / 1_000_000) as int)
}

/// The current instant: the system timer's counter 0 in microseconds. It
/// does not count in sleep mode, and wraps after about 8900 years.
pub fn now(regs: &mut SystimerRegs, xtal_hz: u32) -> (r: Instant)
    requires
        old(regs).wf(),
        xtal_hz * 4 <= u32::MAX,
        ticks_per_second_of(xtal_hz) >= 1_000_000,
    ensures
        r.ticks == now_micros(*old(regs), xtal_hz),
        *final(regs) == latched(*old(regs), 0),
        final(regs).wf(),
{
    let ticks = SystemTimer::unit_value(regs, Unit::Unit0);
    let div = SystemTimer::ticks_per_second(xtal_hz) / 1_000_000;
    Instant::from_ticks(ticks / div)
}

/// An instant a duration `d` after `a` is `d` after it again: adding a
/// duration and taking the difference give it back, wrapping included.
pub proof fn lemma_add_then_sub(a: u64, d: u64)
    requires
        d <= u64::MAX / 2,
    ensures
        wrapping_sub_u64(wrapping_add_u64(a, d), a) == d,
{
}

} // verus!
