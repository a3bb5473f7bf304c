//! Watchdog configuration.
use vstd::prelude::*;
use crate::time::Duration;

verus! {

/// Watchdog status.
#[derive(PartialEq, Eq, Structural, Clone, Copy, Debug)]
pub enum WatchdogStatus {
    /// Enables a watchdog timer with the specified timeout.
    Enabled(Duration),
    /// Disables the watchdog timer.
    Disabled,
}

impl Default for WatchdogStatus {
    /// Disabled.
    fn default() -> (r: Self)
        ensures
            r == WatchdogStatus::Disabled,
    {
        WatchdogStatus::Disabled
    }
}

/// Watchdog configuration.
#[derive(Clone, Copy, Debug)]
pub struct WatchdogConfig {
    /// Enable the super watchdog timer, which has a trigger time of slightly
    /// less than one second.
    swd: bool,
    /// Configures the reset watchdog timer.
    rwdt: WatchdogStatus,
    /// Configures the `timg0` watchdog timer.
    timg0: WatchdogStatus,
}

impl WatchdogConfig {
    /// Whether the super watchdog is enabled.
    pub closed spec fn spec_swd(&self) -> bool {
        self.swd
    }

    /// The status of the reset watchdog.
    pub closed spec fn spec_rwdt(&self) -> WatchdogStatus {
        self.rwdt
    }

    /// The status of the `timg0` watchdog.
    pub closed spec fn spec_timg0(&self) -> WatchdogStatus {
        self.timg0
    }
}

impl Default for WatchdogConfig {
    /// Every watchdog disabled.
    fn default() -> (r: Self)
        ensures
            !r.spec_swd(),
            r.spec_rwdt() == WatchdogStatus::Disabled,
            r.spec_timg0() == WatchdogStatus::Disabled,
    {
        WatchdogConfig { swd: false, rwdt: WatchdogStatus::default(), timg0: WatchdogStatus::default() }
    }
}

} // verus!
