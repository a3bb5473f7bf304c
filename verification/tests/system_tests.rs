use esp_hal::clock::{CpuClock, XtalClock};
use esp_hal::rtc_cntl::{LpwrReg, LpwrRegs, RWDT_WKEY, SWD_WKEY};
use esp_hal::system::{disable_peripherals, Peripheral, PeripheralClockControl, PeripheralGuard, RefCounts, SystemRegs};
use esp_hal::timer::timg::TimgRegs;
use esp_hal::{init, Config, Peripherals};

fn sys() -> SystemRegs {
    SystemRegs { perip_clk_en0: 0, perip_rst_en0: 0, cpu_per_conf: 0, cpu_intr_from_cpu_3: 0 }
}

#[test]
fn first_enable_and_last_disable_switch_the_clock() {
    let mut ctl = PeripheralClockControl { ref_counts: RefCounts::new() };
    let mut s = sys();
    assert!(ctl.enable(&mut s, Peripheral::Uart1));
    assert!(!ctl.enable(&mut s, Peripheral::Uart1));
    assert_eq!(s.perip_clk_en0, 1 << 5);
    assert!(!ctl.disable(&mut s, Peripheral::Uart1));
    assert_eq!(s.perip_clk_en0, 1 << 5);
    assert!(ctl.disable(&mut s, Peripheral::Uart1));
    assert_eq!(s.perip_clk_en0, 0);
    assert_eq!(ctl.ref_counts.counts, [0, 0, 0]);
}

#[test]
fn guards_keep_the_clock_running() {
    let mut ctl = PeripheralClockControl { ref_counts: RefCounts::new() };
    let mut s = sys();
    let g1 = PeripheralGuard::new(&mut ctl, &mut s, Peripheral::Timg0);
    let g2 = PeripheralGuard::new(&mut ctl, &mut s, Peripheral::Timg0);
    assert_eq!(s.perip_clk_en0, 1 << 13);
    g1.release(&mut ctl, &mut s);
    assert_eq!(s.perip_clk_en0, 1 << 13);
    g2.release(&mut ctl, &mut s);
    assert_eq!(s.perip_clk_en0, 0);
}

#[test]
fn unused_peripherals_are_stopped_at_start() {
    let mut ctl = PeripheralClockControl { ref_counts: RefCounts::new() };
    let mut s = sys();
    s.perip_clk_en0 = (1 << 5) | (1 << 13) | (1 << 29);
    disable_peripherals(&mut ctl, &mut s);
    assert_eq!(s.perip_clk_en0, (1 << 13) | (1 << 29));
    assert_eq!(ctl.ref_counts.counts, [1, 0, 1]);
}

#[test]
fn init_disables_the_watchdogs_and_configures_clocks() {
    let mut p = Peripherals {
        clocks: PeripheralClockControl { ref_counts: RefCounts::new() },
        system: sys(),
        lpwr: LpwrRegs {
            int_ena: 1,
            int_clr: 0,
            wdtconfig0: 5,
            wdtwprotect: 0,
            swd_conf: 0,
            swd_wprotect: 0,
            watchdog_writes: Vec::new(),
        },
        timg0: TimgRegs {
            t0_config: 0,
            t0_loadlo: 0,
            t0_loadhi: 0,
            t0_load: 0,
            t0_alarmlo: 0,
            t0_alarmhi: 0,
            int_ena: 0,
            int_clr: 0,
            wdtconfig0: 9,
            wdtwprotect: 0,
        },
    };
    let (clocks, _switch) = init(Config::new_and_default(CpuClock::_160MHz), &mut p, XtalClock::_40M);
    assert_eq!(clocks.cpu_clock.as_mhz(), 160);
    assert_eq!(p.lpwr.wdtconfig0, 0);
    assert_eq!(p.lpwr.swd_conf, 0x8000_0000);
    assert_eq!(
        p.lpwr.watchdog_writes,
        vec![
            (LpwrReg::SwdWprotect, SWD_WKEY),
            (LpwrReg::SwdConf, 0x8000_0000),
            (LpwrReg::SwdWprotect, 0),
            (LpwrReg::WdtWprotect, RWDT_WKEY),
            (LpwrReg::WdtConfig0, 0),
            (LpwrReg::WdtWprotect, 0),
        ]
    );
    assert_eq!(p.timg0.wdtconfig0, 0);
    assert_eq!(p.clocks.ref_counts.counts, [1, 0, 1]);
}
