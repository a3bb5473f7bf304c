use esp_hal::bits::{bit, field, set_bit, set_field};
use esp_hal::gpio::interconnect::{InputSignal, OutputSignal};
use esp_hal::gpio::{
    self, AlternateFunction, AnyPin, DriveMode, DriveStrength, Flex, GpioRegs, InputConfig, IoMuxRegs, Level,
    Output, OutputConfig, PinGuard, Pull,
};

fn gpio_regs() -> GpioRegs {
    GpioRegs { out: 0, enable: 0, pin: vec![0; 22], func_in_sel_cfg: vec![0; 128], func_out_sel_cfg: vec![0x80; 22], enable_log: vec![] }
}

#[test]
fn fields_and_bits_read_back_what_was_written() {
    let w = set_field(0xffff_ffff, 4, 6, 0b10_1010);
    assert_eq!(field(w, 4, 6), 0b10_1010);
    assert_eq!(w & 0xf, 0xf);
    assert_eq!(w >> 10, 0xffff_ffff >> 10);
    let b = set_bit(0, 31, true);
    assert!(bit(b, 31));
    assert!(!bit(set_bit(b, 31, false), 31));
}

#[test]
fn alternate_function_from_number() {
    assert_eq!(AlternateFunction::const_try_from(2), Ok(AlternateFunction::_2));
    assert_eq!(AlternateFunction::const_try_from(5), Ok(AlternateFunction::_5));
    assert_eq!(AlternateFunction::const_try_from(6), Err(()));
}

#[test]
fn output_pin_drives_its_level() {
    let mut g = gpio_regs();
    let mut m = IoMuxRegs { gpio: vec![0; 22] };
    let cfg = OutputConfig::default().with_drive_strength(DriveStrength::_40mA).with_drive_mode(DriveMode::OpenDrain);
    let mut out = Output::new(AnyPin::steal(7), Level::High, cfg, &mut g, &mut m);
    assert_eq!(g.out & (1 << 7), 1 << 7);
    // the pin was high before its output driver was enabled
    assert_eq!(g.enable_log, vec![(1 << 7, 1 << 7)]);
    assert_eq!(g.enable & (1 << 7), 1 << 7);
    assert_eq!(g.pin[7] & (1 << 2), 1 << 2);
    out.set_level(&mut g, Level::Low);
    assert_eq!(g.out & (1 << 7), 0);
    out.apply_config(&mut g, &mut m, &OutputConfig::default().with_pull(Pull::Up));
    assert_eq!(g.pin[7] & (1 << 2), 0);
    assert_eq!(m.gpio[7] & (1 << 8), 1 << 8);
}

#[test]
fn flex_pin_levels() {
    let mut g = gpio_regs();
    let mut m = IoMuxRegs { gpio: vec![0; 22] };
    g.enable = 1 << 3;
    m.gpio[3] = 0x1234;
    let mut f = Flex::new(AnyPin::steal(3));
    // no mode change happens
    assert_eq!(g.enable, 1 << 3);
    assert_eq!(m.gpio[3], 0x1234);
    f.set_level(&mut g, Level::High);
    assert_eq!(g.out & (1 << 3), 1 << 3);
    f.apply_output_config(&mut g, &mut m, &OutputConfig::default());
    assert_eq!(g.pin[3] & (1 << 2), 0);
}

#[test]
fn input_config_pull() {
    let mut c = InputConfig::default();
    assert_eq!(c.pull, Pull::NoPull);
    let c2 = c.with_pull(Pull::Down);
    assert_eq!(c2.pull, Pull::Down);
    assert_eq!(c.pull, Pull::Down);
}

#[test]
fn signals_carry_their_flags() {
    let s = OutputSignal::new(AnyPin::steal(2)).with_gpio_matrix_forced(true);
    assert!(s.is_gpio_matrix_forced());
    assert!(!s.is_output_inverted());
    assert!(!s.with_gpio_matrix_forced(false).is_gpio_matrix_forced());
    let i = InputSignal::new(AnyPin::steal(2));
    assert!(!i.is_input_inverted());
    assert!(i.with_gpio_matrix_forced(true).is_gpio_matrix_forced());
}

#[test]
fn pin_guard_release_disconnects_the_output() {
    let mut g = gpio_regs();
    let mut m = IoMuxRegs { gpio: vec![0; 22] };
    let guard = OutputSignal::new(AnyPin::steal(10)).connect_with_guard(&mut g, &mut m, gpio::OutputSignal::U0TXD);
    assert_eq!(g.func_out_sel_cfg[10] & 0xff, 6);
    guard.release(&mut g);
    assert_eq!(g.func_out_sel_cfg[10] & 0xff, 0x80);
    PinGuard::new_unconnected().release(&mut g);
}

#[test]
fn input_signal_connects_to_a_pin_through_the_matrix() {
    let mut g = gpio_regs();
    let mut m = IoMuxRegs { gpio: vec![0; 22] };
    gpio::InputSignal::U0RXD.connect_to(&mut g, &mut m, &InputSignal::new(AnyPin::steal(8)));
    assert_eq!(g.func_in_sel_cfg[6], (1 << 6) | 8);
}
