//! General-purpose timers: the one-shot timer over a system timer alarm.
use vstd::prelude::*;
use crate::interrupt::{routed_and_enabled, InterruptCoreRegs, InterruptHandler, Priority};
use crate::time::Duration;
use crate::timer::systimer::{
    Alarm, SystimerRegs, cleared_interrupt, interrupt_enabled, mode_set, reset_done, target_loaded,
    timeout_ticks, work_enabled, BIT_MASK, CONF_TARGET0_WORK_EN,
};
use crate::bits::bit_of;

pub mod systimer;
pub mod timg;

verus! {

/// Timer errors.
#[derive(Debug, Clone, Copy, PartialEq, Eq, Structural)]
pub enum Error {
    /// The timer is already active.
    TimerActive,
    /// The timer is not currently active.
    TimerInactive,
    /// The alarm is not currently active.
    AlarmInactive,
    /// The provided timeout is too large.
    InvalidTimeout,
}

/// Any timer peripheral: on this chip, a system timer alarm.
pub enum AnyTimer {
    /// A system timer alarm.
    SystimerAlarm(Alarm),
}

/// A one-shot timer.
pub struct OneShotTimer<F> {
    pub inner: AnyTimer,
    /// The handler bound to the timer's interrupt, if one was set.
    pub handler: Option<InterruptHandler<F>>,
}

/// The system timer registers after a one-shot `timeout` was scheduled on
/// them with the given crystal frequency, when it fits the counter.
pub open spec fn scheduled(r0: SystimerRegs, timeout: Duration, xtal_hz: u32) -> SystimerRegs {
    let r1 = if bit_of(r0.conf, CONF_TARGET0_WORK_EN) { work_enabled(r0, false) } else { r0 };
    let r2 = reset_done(cleared_interrupt(r1));
    let r3 = mode_set(r2, false);
    work_enabled(target_loaded(r3, timeout_ticks(timeout, xtal_hz) as u64), true)
}

/// The system timer registers after a one-shot `timeout` was refused as too
/// long: the timer stopped, its interrupt cleared, and its mode set.
pub open spec fn refused(r0: SystimerRegs) -> SystimerRegs {
    let r1 = if bit_of(r0.conf, CONF_TARGET0_WORK_EN) { work_enabled(r0, false) } else { r0 };
    mode_set(reset_done(cleared_interrupt(r1)), false)
}

impl<F: Copy> OneShotTimer<F> {
    /// A one-shot timer over the given alarm.
    pub fn new(inner: Alarm) -> (r: Self)
        ensures
            r.inner == AnyTimer::SystimerAlarm(inner),
            r.handler.is_none(),
    {
        OneShotTimer { inner: AnyTimer::SystimerAlarm(inner), handler: None }
    }

    /// Starts counting until the given timeout and raises an interrupt then.
    /// A timeout too long for the counter is refused.
    pub fn schedule(&mut self, regs: &mut SystimerRegs, timeout: Duration, xtal_hz: u32) -> (r: Result<(), Error>)
        requires
            old(regs).wf(),
            xtal_hz * 4 <= u32::MAX,
            timeout.micros * (((xtal_hz * 4) / 10) as u64 / 1_000_000) <= u64::MAX,
        ensures
            final(regs).wf(),
            final(self).inner == old(self).inner,
            final(self).handler == old(self).handler,
            match r {
                Ok(()) => timeout_ticks(timeout, xtal_hz) <= BIT_MASK && *final(regs) == scheduled(*old(regs), timeout, xtal_hz),
                Err(e) => e == Error::InvalidTimeout && timeout_ticks(timeout, xtal_hz) > BIT_MASK
                    && *final(regs) == refused(*old(regs)),
            },
    {
        match &self.inner {
            AnyTimer::SystimerAlarm(inner) => {
                if inner.is_running(regs) {
                    inner.stop(regs);
                }
                inner.clear_interrupt(regs);
                inner.reset(regs);
                let ghost r2 = *regs;
                inner.enable_auto_reload(regs, false);
                proof { crate::bits::lemma_bit_roundtrip(r2.target_conf, systimer::TARGET_CONF_PERIOD_MODE, false); }
                match inner.load_value(regs, timeout, xtal_hz) {
                    Ok(()) => {},
                    Err(e) => {
                        return Err(e);
                    },
                }
                inner.start(regs);
                Ok(())
            },
        }
    }

    /// Stops the timer.
    pub fn stop(&mut self, regs: &mut SystimerRegs)
        ensures
            *final(regs) == work_enabled(*old(regs), false),
            final(self).inner == old(self).inner,
            final(self).handler == old(self).handler,
    {
        match &self.inner {
            AnyTimer::SystimerAlarm(inner) => inner.stop(regs),
        }
    }

    /// Sets the interrupt handler, replacing any set before: the timer's
    /// interrupt source is disabled, the handler bound to it, and the source
    /// enabled at the handler's priority.
    pub fn set_interrupt_handler(&mut self, intr: &mut InterruptCoreRegs, handler: InterruptHandler<F>)
        requires
            old(intr).wf(),
            handler.prio != Priority::NoPriority,
        ensures
            final(intr).wf(),
            routed_and_enabled(*old(intr), *final(intr), systimer::SYSTIMER_TARGET0_INTERRUPT as int, handler.prio),
            final(self).inner == old(self).inner,
            final(self).handler == Some(handler),
    {
        match &self.inner {
            AnyTimer::SystimerAlarm(inner) => inner.set_interrupt_handler(intr, handler.priority()),
        }
        self.handler = Some(handler);
    }

    /// Enables or disables the timer's interrupt.
    pub fn enable_interrupt(&mut self, regs: &mut SystimerRegs, enable: bool)
        ensures
            *final(regs) == interrupt_enabled(*old(regs), enable),
            final(self).inner == old(self).inner,
            final(self).handler == old(self).handler,
    {
        match &self.inner {
            AnyTimer::SystimerAlarm(inner) => inner.enable_interrupt(regs, enable),
        }
    }

    /// Clears the timer's interrupt flag.
    pub fn clear_interrupt(&mut self, regs: &mut SystimerRegs)
        ensures
            *final(regs) == cleared_interrupt(*old(regs)),
            final(self).inner == old(self).inner,
            final(self).handler == old(self).handler,
    {
        match &self.inner {
            AnyTimer::SystimerAlarm(inner) => inner.clear_interrupt(regs),
        }
    }
}

} // verus!
