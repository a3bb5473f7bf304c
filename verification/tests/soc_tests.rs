use esp_hal::app_desc::{log2_floor, str_to_cstr_array, EspAppDesc, ESP_APP_DESC_MAGIC_WORD};
use esp_hal::backtrace::{exception_code, exception_description, is_stack_overflow, is_valid_ram_address, BacktraceFrame};
use esp_hal::clock::{
    init_radio_clocks, xtal_frequency_from_config, Clock, ClockSwitch, Clocks, CpuClock, ModemClockController,
    RadioClocks, XtalClock, WIFI,
};
use esp_hal::efuse::{mac0, mac1, Efuse, EfuseBlock, EfuseField, EfuseRegs};
use esp_hal::heap::{HeapStats, InternalHeapStats, MemoryCapability};
use esp_hal::println::{JtagEvent, Printer, SerialJtag, TIMEOUT_ITERATIONS};
use esp_hal::regi2c::{RawRegI2cField, RegI2cBlock, RegI2cMaster, RegI2cRegister};
use esp_hal::rng::{Rng, RngRegs};
use esp_hal::rtc_cntl::{LpwrReg, LpwrRegs, Rtc, SocResetReason};
use esp_hal::system::SystemRegs;

#[test]
fn mac_address_is_read_big_endian() {
    let regs = EfuseRegs { block1: vec![0x4433_2211, 0x0000_6655, 0, 0, 0, 0] };
    assert_eq!(Efuse::read_base_mac_address(&regs), [0x66, 0x55, 0x44, 0x33, 0x22, 0x11]);
    assert_eq!(Efuse::mac_address(&regs, None), [0x66, 0x55, 0x44, 0x33, 0x22, 0x11]);
    assert_eq!(Efuse::mac_address(&regs, Some([1, 2, 3, 4, 5, 6])), [1, 2, 3, 4, 5, 6]);
}

#[test]
fn read_field_le_handles_unaligned_fields() {
    let regs = EfuseRegs { block1: vec![0xABCD_EF12, 0x3456_789A, 0xFFFF_FFFF] };
    // 12 bits from bit 28: 0x2 | 0x89A << 4 ... the low nibble of word 1 next
    let field = EfuseField::new(1, 0, 28, 12);
    let bytes = Efuse::read_field_le(&regs, field, 2);
    // bits 28..32 of word 0 are 0xA, bits 0..8 of word 1 are 0x9A
    assert_eq!(bytes, vec![0xAA, 0x09]);
    // a field longer than the output is cut to it; past the field is zero
    let wide = EfuseField::new(1, 0, 4, 40);
    assert_eq!(Efuse::read_field_le(&regs, wide, 3), vec![0xF1, 0xDE, 0xBC]);
    let short = EfuseField::new(1, 0, 0, 4);
    assert_eq!(Efuse::read_field_le(&regs, short, 2), vec![0x02, 0x00]);
}

#[test]
fn mac_fields_and_blocks() {
    assert_eq!(mac0(), EfuseField { block: EfuseBlock::Block1, word: 0, bit_start: 0, bit_count: 32 });
    assert_eq!(mac1().bit_start, 32);
    assert_eq!(EfuseBlock::from_repr(1), Some(EfuseBlock::Block1));
    assert_eq!(EfuseBlock::from_repr(2), None);
}

#[test]
fn regi2c_field_write_keeps_other_bits() {
    let mut bus = RegI2cBlock { block: 0x66, host_id: 0, regs: vec![0; 256] };
    let master = RegI2cMaster::new(0x66, 0);
    let reg = RegI2cRegister::new(master, 4);
    reg.write_reg(&mut bus, 0b1010_1010);
    // bits 3..2
    let field = RawRegI2cField::new(reg, 3, 2);
    field.write_field(&mut bus, 0b01);
    assert_eq!(reg.read(&bus), 0b1010_0110);
    field.write_field(&mut bus, 0b1111);
    assert_eq!(reg.read(&bus), 0b1010_1110);
    master.write(&mut bus, 9, 0x5a);
    assert_eq!(master.read(&bus, 9), 0x5a);
}

#[test]
fn rtc_init_and_watchdogs() {
    let mut lpwr = LpwrRegs {
        int_ena: 0xff,
        int_clr: 0,
        wdtconfig0: 0x1234,
        wdtwprotect: 7,
        swd_conf: 0,
        swd_wprotect: 7,
        watchdog_writes: Vec::new(),
    };
    let mut sys = SystemRegs { perip_clk_en0: 0, perip_rst_en0: 0, cpu_per_conf: 0b1111, cpu_intr_from_cpu_3: 0 };
    let mut rtc = Rtc::new(&mut lpwr, &mut sys);
    assert_eq!(lpwr.int_ena, 0);
    assert_eq!(lpwr.int_clr, u32::MAX);
    assert_eq!(sys.cpu_per_conf, 0b0111);
    rtc.rwdt.disable(&mut lpwr);
    assert_eq!(lpwr.wdtconfig0, 0);
    assert_eq!(lpwr.wdtwprotect, 0);
    assert_eq!(
        lpwr.watchdog_writes,
        vec![(LpwrReg::WdtWprotect, 0x50D8_3AA1), (LpwrReg::WdtConfig0, 0), (LpwrReg::WdtWprotect, 0)]
    );
    rtc.swd.disable(&mut lpwr);
    assert_eq!(lpwr.swd_conf, 0x8000_0000);
    assert_eq!(lpwr.swd_wprotect, 0);
    assert_eq!(
        lpwr.watchdog_writes[3..],
        [(LpwrReg::SwdWprotect, 0x8F1D_312A), (LpwrReg::SwdConf, 0x8000_0000), (LpwrReg::SwdWprotect, 0)]
    );
}

#[test]
fn reset_reasons_from_codes() {
    assert_eq!(SocResetReason::from_repr(0x01), Some(SocResetReason::ChipPowerOn));
    assert_eq!(SocResetReason::from_repr(0x0F), Some(SocResetReason::SysBrownOut));
    assert_eq!(SocResetReason::from_repr(0x17), Some(SocResetReason::CorePwrGlitch));
    assert_eq!(SocResetReason::from_repr(0x02), None);
    assert_eq!(SocResetReason::from_repr(0x18), None);
}

#[test]
fn rng_reads_the_data_register() {
    let mut rng = Rng::new();
    assert_eq!(rng.random(&RngRegs { data: 0xdead_beef }), 0xdead_beef);
}

#[test]
fn cpu_clock_frequencies() {
    assert_eq!(CpuClock::max(), CpuClock::_160MHz);
    assert_eq!(CpuClock::_80MHz.mhz(), 80);
    assert_eq!(CpuClock::_160MHz.hz(), 160_000_000);
    assert_eq!(XtalClock::_40M.frequency().as_hz(), 40_000_000);
    assert_eq!(XtalClock::Other(26).mhz(), 26);
    assert_eq!(CpuClock::default(), CpuClock::_80MHz);
}

#[test]
fn clocks_configuration_choices() {
    let (c, s) = Clocks::configure(CpuClock::_80MHz, XtalClock::_40M);
    assert_eq!(s, ClockSwitch::Keep);
    assert_eq!(c.apb_clock.as_hz(), 80_000_000);
    let (c, s) = Clocks::configure(CpuClock::_160MHz, XtalClock::_40M);
    assert_eq!(s, ClockSwitch::ToPll);
    assert_eq!(c.cpu_clock.as_mhz(), 160);
    assert_eq!(c.apb_clock.as_mhz(), 80);
    assert_eq!(c.xtal_clock.as_mhz(), 40);
    let (c, s) = Clocks::configure(CpuClock::_160MHz, XtalClock::Other(200));
    assert_eq!(s, ClockSwitch::ToXtal);
    assert_eq!(c.apb_clock.as_mhz(), 160);
}

#[test]
fn xtal_from_config() {
    assert_eq!(xtal_frequency_from_config(None), None);
    assert_eq!(xtal_frequency_from_config(Some(40)), Some(XtalClock::_40M));
    assert_eq!(xtal_frequency_from_config(Some(32)), Some(XtalClock::_32M));
    assert_eq!(xtal_frequency_from_config(Some(26)), None);
}

#[test]
fn phy_clock_runs_while_a_guard_lives() {
    let mut radio = RadioClocks { phy_ref_count: 0, phy_enabled: false, wifi_enabled: false, initialized: false };
    init_radio_clocks(&mut radio);
    assert!(radio.initialized);
    let mut wifi = WIFI {};
    wifi.enable_modem_clock(&mut radio, true);
    assert!(radio.wifi_enabled);
    let g1 = wifi.enable_phy_clock(&mut radio);
    let g2 = wifi.enable_phy_clock(&mut radio);
    assert!(radio.phy_enabled);
    assert_eq!(radio.phy_ref_count, 2);
    g1.release(&mut radio);
    assert!(radio.phy_enabled);
    g2.release(&mut radio);
    assert!(!radio.phy_enabled);
    assert_eq!(radio.phy_ref_count, 0);
    wifi.reset_wifi_mac(&mut radio);
    assert!(radio.wifi_enabled);
}

#[test]
fn app_descriptor_fields() {
    let d = EspAppDesc::new_internal("1.0", "hello", "12:00:00", "Jan 01 2025", "v5.1", 0, 99, 65536);
    assert_eq!(d.magic_word, ESP_APP_DESC_MAGIC_WORD);
    assert_eq!(&d.version[..4], &[b'1', b'.', b'0', 0]);
    assert_eq!(d.version.len(), 32);
    assert_eq!(d.time.len(), 16);
    assert_eq!(d.mmu_page_size, 16);
    assert_eq!(d.max_efuse_blk_rev_full, 99);
    // a string that fills the field gets no terminating zero
    let full = str_to_cstr_array("0123456789abcdef0123", 16);
    assert_eq!(full, b"0123456789abcdef".to_vec());
    assert_eq!(log2_floor(1), 0);
    assert_eq!(log2_floor(8191), 12);
}

#[test]
fn backtrace_helpers() {
    assert_eq!(BacktraceFrame { pc: 0x4200_0104 }.program_counter(), 0x4200_0100);
    assert!(is_valid_ram_address(0x3FC8_0010));
    assert!(!is_valid_ram_address(0x3FC8_0011));
    assert!(!is_valid_ram_address(0x3FCE_0010));
    assert_eq!(exception_code(0x8000_0102), 2);
    assert_eq!(exception_description(2), "Illegal instruction");
    assert_eq!(exception_description(42), "UNKNOWN");
    assert!(is_stack_overflow(14));
}

fn written(events: &[JtagEvent]) -> Vec<u8> {
    events
        .iter()
        .filter_map(|e| match e {
            JtagEvent::Write(b) => Some(*b),
            JtagEvent::Flush => None,
        })
        .collect()
}

#[test]
fn printer_delivers_everything_to_a_host() {
    // a host keeps the FIFO from filling: every reading is "not full"
    let mut out = SerialJtag { full_readings: vec![], polls: 0, events: vec![], timed_out: true };
    let data: Vec<u8> = (0..200u32).map(|i| i as u8).collect();
    Printer::write_bytes(&mut out, &data);
    assert_eq!(written(&out.events), data);
    assert_eq!(out.events.len(), 201);
    assert_eq!(out.events[200], JtagEvent::Flush);
    assert!(!out.timed_out);
}

#[test]
fn printer_waits_for_a_fifo_that_drains() {
    // room at the start and for two bytes; then full for a while before the
    // host drains it
    let mut readings = vec![false, false, false, true, true];
    readings.extend(std::iter::repeat(true).take(1000));
    readings.push(false);
    let mut out = SerialJtag { full_readings: readings, polls: 0, events: vec![], timed_out: false };
    Printer::write_bytes(&mut out, &[1, 2, 3, 4]);
    assert_eq!(
        out.events,
        vec![
            JtagEvent::Write(1),
            JtagEvent::Write(2),
            JtagEvent::Flush,
            JtagEvent::Write(3),
            JtagEvent::Write(4),
            JtagEvent::Flush,
        ]
    );
    assert!(!out.timed_out);
    assert_eq!(out.polls, 1006);
}

#[test]
fn printer_without_a_host_drops_what_does_not_fit() {
    // room for two bytes, then full for good
    let mut readings = vec![false, false, false];
    readings.extend(std::iter::repeat(true).take(TIMEOUT_ITERATIONS + 10));
    let mut out = SerialJtag { full_readings: readings, polls: 0, events: vec![], timed_out: false };
    Printer::write_bytes(&mut out, &[9, 9, 9, 9, 9, 9]);
    assert_eq!(out.events, vec![JtagEvent::Write(9), JtagEvent::Write(9), JtagEvent::Flush, JtagEvent::Flush]);
    assert!(out.timed_out);
    assert_eq!(out.polls, 4 + TIMEOUT_ITERATIONS + 1);
    // full at the start after a timeout: nothing is written, and only one
    // reading is taken
    Printer::write_bytes(&mut out, &[7]);
    assert_eq!(written(&out.events), vec![9, 9]);
    assert_eq!(out.events.last(), Some(&JtagEvent::Flush));
    assert!(out.timed_out);
    assert_eq!(out.polls, 4 + TIMEOUT_ITERATIONS + 2);
}

#[test]
fn printer_clears_a_timeout_once_the_fifo_has_room() {
    let mut out = SerialJtag { full_readings: vec![false], polls: 0, events: vec![], timed_out: true };
    Printer::write_bytes_assume_cs(&mut out, &[5]);
    assert_eq!(out.events, vec![JtagEvent::Write(5)]);
    assert!(!out.timed_out);
}

#[test]
fn heap_statistics_keep_the_books() {
    let mut s = InternalHeapStats::new();
    s.record_alloc(0, 100);
    s.record_alloc(100, 160);
    s.record_dealloc(160, 60);
    let st = s.stats(60, 940);
    assert_eq!(st, HeapStats { size: 1000, current_usage: 60, max_usage: 160, total_allocated: 160, total_freed: 100 });
    assert_ne!(MemoryCapability::Internal, MemoryCapability::External);
}
