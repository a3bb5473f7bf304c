use esp_hal::interrupt::{InterruptCoreRegs, InterruptHandler, Priority};
use esp_hal::system::{PeripheralClockControl, RefCounts, SystemRegs};
use esp_hal::time::{Duration, Instant, Rate};
use esp_hal::timer::systimer::{SystemTimer, SystimerRegs, Unit};
use esp_hal::timer::timg::{timeout_to_ticks, write_wdtconfig0, WDT_WKEY, Timer, TimerGroup, Timg0, TimgRegs, Wdt};
use esp_hal::timer::{Error, OneShotTimer};

fn systimer_regs() -> SystimerRegs {
    SystimerRegs {
        conf: 0,
        unit0_op: 0,
        unit1_op: 0,
        unit0_value_hi: 0,
        unit0_value_lo: 0,
        unit1_value_hi: 0,
        unit1_value_lo: 0,
        target_conf: 0,
        trgt_hi: 0,
        trgt_lo: 0,
        comp_load: 0,
        int_ena: 0,
        int_clr: 0,
    }
}

fn sys() -> SystemRegs {
    SystemRegs { perip_clk_en0: 0, perip_rst_en0: 0, cpu_per_conf: 0, cpu_intr_from_cpu_3: 0 }
}

fn timg_regs() -> TimgRegs {
    TimgRegs {
        t0_config: 0,
        t0_loadlo: 0,
        t0_loadhi: 0,
        t0_load: 0,
        t0_alarmlo: 0,
        t0_alarmhi: 0,
        int_ena: 0,
        int_clr: 0,
        wdtconfig0: 0,
        wdtwprotect: 0,
    }
}

#[test]
fn ticks_per_second_is_two_fifths_of_the_crystal() {
    assert_eq!(SystemTimer::ticks_per_second(40_000_000), 16_000_000);
}

#[test]
fn unit_value_reads_both_words() {
    let mut r = systimer_regs();
    r.unit0_value_hi = 0x3;
    r.unit0_value_lo = 0x10;
    assert_eq!(SystemTimer::unit_value(&mut r, Unit::Unit0), 0x3_0000_0010);
    assert_eq!(r.unit0_op, 1 << 30);
}

#[test]
fn one_shot_schedules_a_target_after_the_counter() {
    let mut ctl = PeripheralClockControl { ref_counts: RefCounts::new() };
    let mut s = sys();
    let systimer = SystemTimer::new(&mut ctl, &mut s);
    assert_eq!(ctl.ref_counts.counts[2], 1);
    let mut r = systimer_regs();
    r.unit0_value_lo = 1000;
    let mut timer: OneShotTimer<u32> = OneShotTimer::new(systimer.alarm0);
    assert_eq!(timer.schedule(&mut r, Duration::from_micros(10), 40_000_000), Ok(()));
    // 10 us at 16 ticks per us, after the counter's 1000
    assert_eq!(r.trgt_lo, 1160);
    assert_eq!(r.trgt_hi, 0);
    assert_eq!(r.comp_load, 1);
    assert_eq!(r.conf & (1 << 24), 1 << 24);
    assert_eq!(r.int_clr, 1);
    timer.stop(&mut r);
    assert_eq!(r.conf & (1 << 24), 0);
}

#[test]
fn one_shot_refuses_a_timeout_beyond_the_counter() {
    let mut ctl = PeripheralClockControl { ref_counts: RefCounts::new() };
    let mut s = sys();
    let systimer = SystemTimer::new(&mut ctl, &mut s);
    let mut r = systimer_regs();
    let mut timer: OneShotTimer<u32> = OneShotTimer::new(systimer.alarm0);
    let too_long = Duration::from_micros(1u64 << 50);
    assert_eq!(timer.schedule(&mut r, too_long, 40_000_000), Err(Error::InvalidTimeout));
    assert_eq!(r.conf & (1 << 24), 0);
}

#[test]
fn one_shot_interrupt_controls() {
    let mut ctl = PeripheralClockControl { ref_counts: RefCounts::new() };
    let mut s = sys();
    let systimer = SystemTimer::new(&mut ctl, &mut s);
    let mut r = systimer_regs();
    let mut timer: OneShotTimer<u32> = OneShotTimer::new(systimer.alarm0);
    timer.enable_interrupt(&mut r, true);
    assert_eq!(r.int_ena, 1);
    timer.clear_interrupt(&mut r);
    assert_eq!(r.int_clr, 1);
    let mut intr = InterruptCoreRegs {
        intr_map: vec![5; 64],
        cpu_int_enable: 0,
        cpu_int_type: 0,
        cpu_int_pri: vec![0; 32],
        cpu_int_clear: 0,
        intr_status: [0, 0],
    };
    timer.set_interrupt_handler(&mut intr, InterruptHandler::new(1u32, Priority::Priority3));
    assert_eq!(intr.intr_map[37], 3);
    assert_eq!(intr.intr_map[36], 5);
    assert_eq!(intr.cpu_int_enable, 1 << 3);
    assert!(timer.handler.is_some());
}

#[test]
fn timeout_to_ticks_rounds_down_and_detects_overflow() {
    let clock = Rate::from_mhz(80);
    assert_eq!(timeout_to_ticks(Duration::from_micros(1000), clock, 2), Some(40_000));
    assert_eq!(timeout_to_ticks(Duration::from_micros(3), Rate::from_hz(1_000_000), 3), Some(0));
    assert_eq!(timeout_to_ticks(Duration::from_micros(7), Rate::from_hz(3_000_000), 2), Some(10));
    assert_eq!(timeout_to_ticks(Duration::from_micros(u64::MAX), clock, 2), None);
}

#[test]
fn timg_divider_and_load_value() {
    let mut r = timg_regs();
    let t = Timer { tg: 0 };
    assert_eq!(t.divider(&r), 65536);
    r.t0_config = 1 << 13;
    assert_eq!(t.divider(&r), 2);
    r.t0_config = 80 << 13;
    assert_eq!(t.divider(&r), 80);
    assert_eq!(t.load_value(&mut r, Duration::from_secs(1), Rate::from_mhz(80)), Ok(()));
    assert_eq!(r.t0_alarmlo, 1_000_000);
    assert_eq!(r.t0_alarmhi, 0);
}

#[test]
fn timer_group_and_watchdog() {
    let mut ctl = PeripheralClockControl { ref_counts: RefCounts::new() };
    let mut s = sys();
    let mut r = timg_regs();
    r.t0_config = 1 << 9;
    r.wdtconfig0 = (1 << 21) | 0x55;
    r.wdtwprotect = WDT_WKEY;
    let mut tg: TimerGroup<Timg0> = TimerGroup::new(&mut ctl, &mut s, &mut r);
    assert_eq!(r.t0_config, 0);
    assert_eq!(r.wdtconfig0, 0x55);
    assert_eq!(ctl.ref_counts.counts[0], 1);
    assert_eq!(s.perip_clk_en0, 1 << 13);
    tg.wdt.disable(&mut r);
    assert_eq!(r.wdtconfig0, 0);
    assert_eq!(r.wdtwprotect, 0);
    let mut w: Wdt<Timg0> = Wdt::new(&mut r);
    w.set_wdt_enabled(&mut r, true);
    assert_eq!(r.wdtwprotect, 0);
}

#[test]
fn timg_start_and_stop() {
    let mut r = timg_regs();
    let t = Timer { tg: 0 };
    t.start(&mut r);
    assert!(t.is_counter_active(&r));
    assert_eq!(r.t0_load, 1);
    t.stop(&mut r);
    assert!(!t.is_counter_active(&r));
    t.set_auto_reload(&mut r, true);
    t.clear_interrupt(&mut r);
    assert_eq!(r.t0_config & (1 << 10), 1 << 10);
}

#[test]
fn rate_conversions() {
    assert_eq!(Rate::from_khz(32).as_hz(), 32_000);
    assert_eq!(Rate::from_mhz(160).as_mhz(), 160);
    assert_eq!(Rate::from_hz(1_500_000).as_mhz(), 1);
    assert_eq!(Rate::from_hz(1000).as_duration().as_micros(), 1000);
}

#[test]
fn duration_conversions() {
    assert_eq!(Duration::from_secs(2).as_micros(), 2_000_000);
    assert_eq!(Duration::from_micros(2_999).as_millis(), 2);
    let mut d = Duration::from_micros(5);
    d.add_assign(Duration::from_micros(7));
    assert_eq!(d.as_micros(), 12);
    assert_eq!(d.div(5).as_micros(), 2);
    assert_eq!(Duration::zero().as_micros(), 0);
    assert_eq!(Duration::max().as_micros(), u64::MAX);
}

#[test]
fn instant_arithmetic_wraps() {
    let a = Instant::from_ticks(10);
    let b = Instant::from_ticks(3);
    assert_eq!(a.sub(b).as_micros(), 7);
    assert_eq!(a.duration_since_epoch().as_micros(), 10);
    let late = Instant::from_ticks(u64::MAX);
    assert_eq!(late.add(Duration::from_micros(2)).ticks, 1);
    assert_eq!(Instant::from_ticks(1).sub(late).as_micros(), 2);
    assert_eq!(b.elapsed(a).as_micros(), 7);
}

#[test]
fn locked_watchdog_ignores_writes() {
    let mut r = timg_regs();
    r.wdtconfig0 = 0x77;
    write_wdtconfig0(&mut r, 0);
    assert_eq!(r.wdtconfig0, 0x77);
    r.wdtwprotect = WDT_WKEY;
    write_wdtconfig0(&mut r, 0);
    assert_eq!(r.wdtconfig0, 0);
    // a locked watchdog is unlocked for the disable
    let mut r = timg_regs();
    r.wdtconfig0 = 0x77;
    let mut w: Wdt<Timg0> = Wdt::new(&mut r);
    assert_eq!(r.wdtconfig0, 0x77);
    w.disable(&mut r);
    assert_eq!(r.wdtconfig0, 0);
    assert_eq!(r.wdtwprotect, 0);
}
