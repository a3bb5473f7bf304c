use esp_hal::gpio::interconnect::{InputSignal, OutputSignal};
use esp_hal::gpio::{self, AnyPin, GpioRegs, IoMuxRegs};
use esp_hal::interrupt::InterruptCoreRegs;
use esp_hal::system::{PeripheralClockControl, RefCounts, SystemRegs};
use esp_hal::uart::{
    rx_event_check_for_error, AtCmdConfig, Config, ConfigError, Info, RxError, RxEvents, RxWait, TxEvents, Uart, UartRegs, UART_FIFO_SIZE,
};

fn uart_regs() -> UartRegs {
    UartRegs {
        int_raw: 0,
        int_ena: 0,
        clkdiv: 0x2b6,
        conf0: 0,
        conf1: 0,
        clk_conf: 0x0370_1000,
        mem_conf: 0,
        idle_conf: 0,
        fsm_status: 0,
        at_cmd_precnt: 0,
        at_cmd_postcnt: 0,
        at_cmd_gaptout: 0,
        at_cmd_char: 0,
        id: 0,
        tx_fifo: vec![],
        rx_fifo: vec![],
    }
}

fn info() -> Info {
    Info { regs: uart_regs(), interrupt: 22, tx_signal: gpio::OutputSignal::U1TXD, rx_signal: gpio::InputSignal::U1RXD }
}

fn gpio_regs() -> GpioRegs {
    GpioRegs { out: 0, enable: 0, pin: vec![0; 22], func_in_sel_cfg: vec![0; 128], func_out_sel_cfg: vec![0x80; 22], enable_log: vec![] }
}

fn intr_regs() -> InterruptCoreRegs {
    InterruptCoreRegs {
        intr_map: vec![3; 64],
        cpu_int_enable: 0,
        cpu_int_type: 0,
        cpu_int_pri: vec![0; 32],
        cpu_int_clear: 0,
        intr_status: [0, 0],
    }
}

fn sys() -> SystemRegs {
    SystemRegs { perip_clk_en0: 0, perip_rst_en0: 0, cpu_per_conf: 0, cpu_intr_from_cpu_3: 0 }
}

fn new_uart(info: &mut Info, ctl: &mut PeripheralClockControl, sys: &mut SystemRegs) -> Uart {
    let mut intr = intr_regs();
    match Uart::new(info, Config::default(), 80_000_000, ctl, sys, &mut intr) {
        Ok(u) => {
            assert_eq!(intr.intr_map[22], 1);
            assert_eq!(intr.cpu_int_enable, 1 << 1);
            u
        }
        Err(_) => panic!("the default configuration is supported"),
    }
}

#[test]
fn new_uart_counts_two_users_and_initialises() {
    let mut ctl = PeripheralClockControl { ref_counts: RefCounts::new() };
    let mut s = sys();
    let mut inf = info();
    inf.regs.int_raw = 0xffff;
    inf.regs.rx_fifo = vec![1, 2, 3];
    let _uart = new_uart(&mut inf, &mut ctl, &mut s);
    assert_eq!(ctl.ref_counts.counts[1], 2);
    assert_eq!(s.perip_clk_en0, 1 << 5);
    assert_eq!(inf.regs.int_raw, 0);
    assert_eq!(inf.regs.int_ena, 0);
    assert!(inf.regs.rx_fifo.is_empty());
    // 8 data bits, err_wr_mask
    assert_eq!(inf.regs.conf0 & (0b11 << 2), 0b11 << 2);
    assert_eq!(inf.regs.conf0 & (1 << 26), 1 << 26);
    // RX FIFO full threshold 120 and TX FIFO empty threshold 10
    assert_eq!(inf.regs.conf1 & 0x1ff, 120);
    assert_eq!((inf.regs.conf1 >> 9) & 0x1ff, 10);
}

#[test]
fn new_uart_refuses_an_unsupported_baud_rate() {
    let mut ctl = PeripheralClockControl { ref_counts: RefCounts::new() };
    let mut s = sys();
    let mut inf = info();
    let mut intr = intr_regs();
    let r = Uart::new(&mut inf, Config::default().with_baudrate(0), 80_000_000, &mut ctl, &mut s, &mut intr);
    assert!(matches!(r, Err(ConfigError::UnsupportedBaudrate)));
    assert_eq!(ctl.ref_counts.counts[1], 0);
}

#[test]
fn apply_config_reports_each_error() {
    let mut ctl = PeripheralClockControl { ref_counts: RefCounts::new() };
    let mut s = sys();
    let mut inf = info();
    let mut uart = new_uart(&mut inf, &mut ctl, &mut s);
    let mut c = Config::default();
    c.rx.fifo_full_threshold = 200;
    assert_eq!(uart.apply_config(&mut inf, &c, 80_000_000), Err(ConfigError::UnsupportedRxFifoThreshold));
    let mut c = Config::default();
    c.tx.fifo_empty_threshold = 128;
    assert_eq!(uart.apply_config(&mut inf, &c, 80_000_000), Err(ConfigError::UnsupportedTxFifoThreshold));
    let mut c = Config::default();
    c.rx.timeout = Some(200);
    assert_eq!(uart.apply_config(&mut inf, &c, 80_000_000), Err(ConfigError::UnsupportedTimeout));
    let c = Config::default().with_baudrate(6_000_000);
    assert_eq!(uart.apply_config(&mut inf, &c, 80_000_000), Err(ConfigError::UnsupportedBaudrate));
    assert_eq!(uart.apply_config(&mut inf, &Config::default(), 80_000_000), Ok(()));
}

#[test]
fn with_tx_and_with_rx_route_the_signals() {
    let mut ctl = PeripheralClockControl { ref_counts: RefCounts::new() };
    let mut s = sys();
    let mut inf = info();
    let uart = new_uart(&mut inf, &mut ctl, &mut s);
    let mut g = gpio_regs();
    let mut m = IoMuxRegs { gpio: vec![0; 22] };
    let uart = uart.with_tx(&inf, &mut g, &mut m, OutputSignal::new(AnyPin::steal(4)));
    assert_eq!(uart.tx.tx_pin.pin, 4);
    assert_eq!(g.out & (1 << 4), 1 << 4);
    assert_eq!(g.enable & (1 << 4), 1 << 4);
    // the pin went high before its driver was enabled
    assert_eq!(g.enable_log, vec![(1 << 4, 1 << 4)]);
    // U1TXD (9) drives pin 4 through the GPIO matrix
    assert_eq!(g.func_out_sel_cfg[4] & 0xff, 9);
    let uart = uart.with_rx(&inf, &mut g, &mut m, InputSignal::new(AnyPin::steal(5)));
    // U1RXD (9) reads pin 5 through the GPIO matrix
    assert_eq!(g.func_in_sel_cfg[9] & 0x1f, 5);
    let uart = uart.with_tx(&inf, &mut g, &mut m, OutputSignal::new(AnyPin::steal(6)));
    // the pin assigned before goes back to its GPIO_OUT bit
    assert_eq!(g.func_out_sel_cfg[4] & 0xff, 0x80);
    assert_eq!(g.func_out_sel_cfg[6] & 0xff, 9);
    let (_rx, tx) = uart.split();
    assert_eq!(tx.tx_pin.pin, 6);
}

#[test]
fn at_command_configuration() {
    let mut ctl = PeripheralClockControl { ref_counts: RefCounts::new() };
    let mut s = sys();
    let mut inf = info();
    let mut uart = new_uart(&mut inf, &mut ctl, &mut s);
    let c = AtCmdConfig::default().with_cmd_char(b'#');
    uart.set_at_cmd(&mut inf, c);
    assert_eq!(inf.regs.at_cmd_char, (1 << 8) | 0x23);
    assert_eq!(inf.regs.at_cmd_precnt, 0);
    assert_eq!(inf.regs.clk_conf & (1 << 22), 1 << 22);
}

#[test]
fn waiting_for_data_lowers_the_threshold_then_restores_it() {
    let mut ctl = PeripheralClockControl { ref_counts: RefCounts::new() };
    let mut s = sys();
    let mut inf = info();
    let uart = new_uart(&mut inf, &mut ctl, &mut s);
    let (mut rx, _tx) = uart.split();
    inf.regs.rx_fifo = vec![1];
    assert_eq!(rx.wait_for_buffered_data_begin(&mut inf, 1, 16, false), RxWait::Ready);
    let w = rx.wait_for_buffered_data_begin(&mut inf, 4, 16, true);
    match w {
        RxWait::Wait { events, restore_threshold } => {
            assert_eq!(restore_threshold, 120);
            assert_eq!(inf.regs.conf1 & 0x1ff, 16);
            assert!(events.fifo_full && events.fifo_ovf && events.fifo_tout);
            assert!(!events.cmd_char_detected);
            let mut got = RxEvents::empty();
            got.fifo_full = true;
            assert_eq!(rx.wait_for_buffered_data_end(&mut inf, got, restore_threshold), Ok(()));
            assert_eq!(inf.regs.conf1 & 0x1ff, 120);
            let mut bad = RxEvents::empty();
            bad.fifo_ovf = true;
            assert_eq!(rx.wait_for_buffered_data_end(&mut inf, bad, restore_threshold), Err(RxError::FifoOverflowed));
            assert!(inf.regs.rx_fifo.is_empty());
        }
        RxWait::Ready => panic!("one byte is fewer than four"),
    }
}

#[test]
fn waiting_with_enough_data_leaves_a_high_threshold_alone() {
    let mut ctl = PeripheralClockControl { ref_counts: RefCounts::new() };
    let mut s = sys();
    let mut inf = info();
    let uart = new_uart(&mut inf, &mut ctl, &mut s);
    let (mut rx, _tx) = uart.split();
    // a threshold above what can be set: only a wait that lowers it would fail
    inf.regs.conf1 = (inf.regs.conf1 & !0x1ff) | 200;
    inf.regs.rx_fifo = vec![1, 2, 3];
    assert!(!inf.wait_lowers_threshold(2, 300));
    assert_eq!(rx.wait_for_buffered_data_begin(&mut inf, 2, 300, false), RxWait::Ready);
    assert_eq!(inf.regs.conf1 & 0x1ff, 200);
    assert!(inf.wait_lowers_threshold(4, 300));
}

fn full_fifo_events() -> RxEvents {
    let mut events = RxEvents::empty();
    events.fifo_full = true;
    events.fifo_ovf = true;
    events
}

#[test]
fn rx_poll_registers_once_then_resolves_on_the_event() {
    let mut inf = info();
    let mut registered = false;
    assert_eq!(inf.poll_rx_events(full_fifo_events(), &mut registered), None);
    assert!(registered);
    assert_eq!(inf.regs.int_ena, (1 << 0) | (1 << 4));
    inf.regs.int_ena = 0;
    assert_eq!(inf.poll_rx_events(full_fifo_events(), &mut registered), None);
    assert_eq!(inf.regs.int_ena, 0);
    // the FIFO-full and glitch bits are raw; only the first is waited for
    inf.regs.int_raw = (1 << 0) | (1 << 11);
    let got = inf.poll_rx_events(full_fifo_events(), &mut registered).unwrap();
    assert!(got.fifo_full && !got.fifo_ovf && !got.glitch_detected);
    assert_eq!(inf.regs.int_raw, 1 << 11);
}

#[test]
fn tx_poll_resolves_on_done() {
    let mut inf = info();
    let mut registered = false;
    let done = TxEvents { done: true, fifo_empty: false };
    assert!(!inf.poll_tx_events(done, &mut registered));
    assert!(registered);
    assert_eq!(inf.regs.int_ena, 1 << 14);
    inf.regs.int_raw = (1 << 14) | (1 << 1);
    assert!(inf.poll_tx_events(done, &mut registered));
    assert_eq!(inf.regs.int_raw, 1 << 1);
}

#[test]
fn async_write_waits_on_a_full_fifo_and_writes_what_fits() {
    let mut ctl = PeripheralClockControl { ref_counts: RefCounts::new() };
    let mut s = sys();
    let mut inf = info();
    let uart = new_uart(&mut inf, &mut ctl, &mut s);
    let (_rx, mut tx) = uart.split();
    inf.regs.tx_fifo = vec![0; UART_FIFO_SIZE as usize - 2];
    assert_eq!(tx.write_async(&mut inf, &[1, 2, 3]), Some(Ok(2)));
    assert_eq!(&inf.regs.tx_fifo[UART_FIFO_SIZE as usize - 2..], &[1, 2]);
    assert_eq!(tx.write_async(&mut inf, &[4]), None);
    assert!(!tx.flush_async(&inf));
    inf.regs.tx_fifo.clear();
    assert!(tx.flush_async(&inf));
    assert_eq!(tx.write_async(&mut inf, &[]), Some(Ok(0)));
}

#[test]
fn exact_read_fills_the_buffer_in_steps() {
    let mut ctl = PeripheralClockControl { ref_counts: RefCounts::new() };
    let mut s = sys();
    let mut inf = info();
    let uart = new_uart(&mut inf, &mut ctl, &mut s);
    let (mut rx, _tx) = uart.split();
    let mut buf = [0u8; 5];
    inf.regs.rx_fifo = vec![1, 2];
    assert_eq!(rx.read_exact_async(&mut inf, &mut buf, 0), Ok(2));
    inf.regs.rx_fifo = vec![3, 4, 5, 6];
    assert_eq!(rx.read_exact_async(&mut inf, &mut buf, 2), Ok(5));
    assert_eq!(buf, [1, 2, 3, 4, 5]);
    assert_eq!(inf.regs.rx_fifo, vec![6]);
    inf.regs.int_raw = 1 << 3;
    assert_eq!(rx.read_exact_async(&mut inf, &mut buf, 5), Err(RxError::FrameFormatViolated));
}

#[test]
fn refused_configuration_stops_the_clock_again() {
    let mut ctl = PeripheralClockControl { ref_counts: RefCounts::new() };
    let mut s = sys();
    let mut inf = info();
    let mut intr = intr_regs();
    let mut c = Config::default();
    c.rx.fifo_full_threshold = 60;
    c.rx.timeout = Some(200);
    let r = Uart::new(&mut inf, c, 80_000_000, &mut ctl, &mut s, &mut intr);
    assert!(matches!(r, Err(ConfigError::UnsupportedTimeout)));
    assert_eq!(ctl.ref_counts.counts[1], 0);
    // the clock was started, then stopped with the reset released
    assert_eq!(s.perip_clk_en0 & (1 << 5), 0);
    assert_eq!(s.perip_rst_en0 & (1 << 5), 0);
    // the RX FIFO full threshold was written before the timeout was refused
    assert_eq!(inf.regs.conf1 & 0x1ff, 60);
    assert_eq!(intr.intr_map[22], 3);
}

#[test]
fn each_rx_error_is_reported_in_declaration_order() {
    let mut e = RxEvents::empty();
    e.fifo_full = true;
    e.cmd_char_detected = true;
    e.fifo_tout = true;
    assert_eq!(rx_event_check_for_error(e), Ok(()));
    e.parity_error = true;
    assert_eq!(rx_event_check_for_error(e), Err(RxError::ParityMismatch));
    e.frame_error = true;
    assert_eq!(rx_event_check_for_error(e), Err(RxError::FrameFormatViolated));
    e.glitch_detected = true;
    assert_eq!(rx_event_check_for_error(e), Err(RxError::GlitchOccurred));
    e.fifo_ovf = true;
    assert_eq!(rx_event_check_for_error(e), Err(RxError::FifoOverflowed));
}
