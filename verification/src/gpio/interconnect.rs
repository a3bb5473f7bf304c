//! Peripheral signal interconnect through the GPIO matrix.
//!
//! A peripheral input is fed by exactly one signal: a GPIO input or a fixed
//! level. A peripheral output can drive any number of pins, and a pin is
//! driven by at most one peripheral output.
use vstd::prelude::*;
use crate::bits::{with_bit, with_field};
use crate::gpio::{
    self, AnyPin, AlternateFunction, GpioRegs, InputConfig, IoMuxRegs, Level, OutputConfig, Pin, PinGuard,
    FUNC_IN_SEL_OFFSET, GPIO_FUNCTION, INPUT_SIGNAL_MAX, OUTPUT_SIGNAL_MAX, ONE_INPUT, ZERO_INPUT,
    IN_INV_SEL, IN_SEL_GPIO, IO_MUX_MCU_SEL_LSB, OEN_INV_SEL, OEN_SEL, OUT_INV_SEL, OUT_SEL_LSB,
    FUNC_OUT_SEL_CFG_RESET,
};

verus! {

/// The word a `FUNC_IN_SEL_CFG` register is written with: through the
/// matrix or not, inverted or not, and the source.
pub open spec fn in_sel_word(use_gpio_matrix: bool, inverted: bool, input: u8) -> u32 {
    with_bit(with_bit(input as u32, IN_INV_SEL, inverted), IN_SEL_GPIO, use_gpio_matrix)
}

/// The word a `FUNC_OUT_SEL_CFG` register is written with.
pub open spec fn out_sel_word(
    use_gpio_matrix: bool,
    signal: u8,
    inverted: bool,
    peripheral_control_output_enable: bool,
    invert_output_enable: bool,
) -> u32 {
    let base = if use_gpio_matrix {
        with_bit(with_field(FUNC_OUT_SEL_CFG_RESET, OUT_SEL_LSB, 8, signal as u32), OUT_INV_SEL, inverted)
    } else {
        FUNC_OUT_SEL_CFG_RESET
    };
    with_bit(with_bit(base, OEN_SEL, !peripheral_control_output_enable), OEN_INV_SEL, invert_output_enable)
}

/// The effect of connecting peripheral input `signal` to `src`: the pad's IO
/// MUX function and the signal's `FUNC_IN_SEL_CFG` register.
pub open spec fn input_connected(
    g0: GpioRegs, m0: IoMuxRegs, g1: GpioRegs, m1: IoMuxRegs,
    src: Signal, signal: gpio::InputSignal, is_inverted: bool, force_gpio: bool,
) -> bool {
    let af = match src {
        Signal::Pin(p) => if is_inverted || force_gpio { GPIO_FUNCTION } else { gpio::input_function_for(p.num(), signal) },
        Signal::_Level(_) => GPIO_FUNCTION,
    };
    &&& g1.wf()
    &&& m1.wf()
    &&& g1.func_in_sel_cfg@ == g0.func_in_sel_cfg@.update(
        signal.code() - FUNC_IN_SEL_OFFSET,
        in_sel_word(af == GPIO_FUNCTION, is_inverted, src.input_source()))
    &&& m1.gpio@ == match src {
        Signal::Pin(p) => m0.gpio@.update(p.num() as int, with_field(m0.gpio@[p.num() as int], IO_MUX_MCU_SEL_LSB, 3, af.code())),
        Signal::_Level(_) => m0.gpio@,
    }
    &&& g1.out == g0.out
    &&& g1.enable_log@ == g0.enable_log@
    &&& g1.enable == g0.enable
    &&& g1.pin == g0.pin
    &&& g1.func_out_sel_cfg == g0.func_out_sel_cfg
}

/// The effect of letting peripheral output `signal` drive `dst`.
pub open spec fn output_connected(
    g0: GpioRegs, m0: IoMuxRegs, g1: GpioRegs, m1: IoMuxRegs,
    dst: Signal, signal: gpio::OutputSignal, is_inverted: bool, force_gpio: bool,
    peripheral_control_output_enable: bool, invert_output_enable: bool,
) -> bool {
    &&& g1.wf()
    &&& m1.wf()
    &&& match dst {
        Signal::Pin(p) => {
            let af = if is_inverted || force_gpio { GPIO_FUNCTION } else { gpio::output_function_for(p.num(), signal) };
            &&& m1.gpio@ == m0.gpio@.update(p.num() as int, with_field(m0.gpio@[p.num() as int], IO_MUX_MCU_SEL_LSB, 3, af.code()))
            &&& g1.func_out_sel_cfg@ == g0.func_out_sel_cfg@.update(p.num() as int,
                out_sel_word(af == GPIO_FUNCTION, signal.code(), is_inverted, peripheral_control_output_enable, invert_output_enable))
        },
        Signal::_Level(_) => {
            &&& m1.gpio@ == m0.gpio@
            &&& g1.func_out_sel_cfg@ == g0.func_out_sel_cfg@
        },
    }
    &&& g1.out == g0.out
    &&& g1.enable_log@ == g0.enable_log@
    &&& g1.enable == g0.enable
    &&& g1.pin == g0.pin
    &&& g1.func_in_sel_cfg == g0.func_in_sel_cfg
}

/// The effect of handing `dst`'s output back to its `GPIO_OUT` bit.
pub open spec fn output_disconnected(g0: GpioRegs, g1: GpioRegs, dst: Signal) -> bool {
    &&& g1.wf()
    &&& g1.func_out_sel_cfg@ == match dst {
        Signal::Pin(p) => g0.func_out_sel_cfg@.update(p.num() as int,
            with_field(g0.func_out_sel_cfg@[p.num() as int], OUT_SEL_LSB, 8, gpio::OutputSignal::GPIO.code() as u32)),
        Signal::_Level(_) => g0.func_out_sel_cfg@,
    }
    &&& g1.out == g0.out
    &&& g1.enable_log@ == g0.enable_log@
    &&& g1.enable == g0.enable
    &&& g1.pin == g0.pin
    &&& g1.func_in_sel_cfg == g0.func_in_sel_cfg
}

/// What feeds or is driven by a signal: a pin, or a fixed level.
pub enum Signal {
    Pin(AnyPin),
    _Level(Level),
}

impl Signal {
    pub open spec fn wf(&self) -> bool {
        match self {
            Signal::Pin(p) => p.wf(),
            Signal::_Level(_) => true,
        }
    }

    /// The GPIO matrix input number of this source.
    pub open spec fn input_source(&self) -> u8 {
        match self {
            Signal::Pin(p) => p.num(),
            Signal::_Level(Level::Low) => ZERO_INPUT,
            Signal::_Level(Level::High) => ONE_INPUT,
        }
    }

    /// The pin's number, if the signal is a pin.
    pub fn gpio_number(&self) -> (r: Option<u8>)
        ensures
            r == match self {
                Signal::Pin(p) => Some(p.num()),
                Signal::_Level(_) => None::<u8>,
            },
    {
        match self {
            Signal::Pin(pin) => Some(pin.pin),
            Signal::_Level(_) => None,
        }
    }

    /// A guard that disconnects the pin from its peripheral output when
    /// released; one that does nothing for a level.
    pub fn connect_with_guard(self, signal: gpio::OutputSignal) -> (g: PinGuard)
        ensures
            g.pin == match self {
                Signal::Pin(p) => p.num(),
                Signal::_Level(_) => u8::MAX,
            },
    {
        match self {
            Signal::Pin(pin) => PinGuard::new(pin),
            Signal::_Level(_) => PinGuard::new_unconnected(),
        }
    }

    /// Connects peripheral input `signal` to this source. A pin uses an IO MUX
    /// function that reads the signal directly where it has one and neither
    /// inversion nor the matrix is asked for; otherwise the GPIO matrix.
    pub fn connect_to_peripheral_input(
        &self,
        gpio: &mut GpioRegs,
        io_mux: &mut IoMuxRegs,
        signal: gpio::InputSignal,
        is_inverted: bool,
        force_gpio: bool,
    )
        requires
            self.wf(),
            old(gpio).wf(),
            old(io_mux).wf(),
        ensures
            input_connected(*old(gpio), *old(io_mux), *final(gpio), *final(io_mux), *self, signal, is_inverted, force_gpio),
    {
        proof { lemma_pin_functions(self.input_source(), signal, gpio::OutputSignal::GPIO); }
        let af = match self {
            Signal::Pin(pin) => {
                let af = if is_inverted || force_gpio {
                    GPIO_FUNCTION
                } else {
                    find_input_function(&pin.input_signals(), signal)
                };
                pin.set_alternate_function(io_mux, af);
                af
            },
            Signal::_Level(_) => GPIO_FUNCTION,
        };
        let use_gpio_matrix = af == GPIO_FUNCTION;
        let input = match self {
            Signal::Pin(pin) => pin.pin,
            Signal::_Level(Level::Low) => ZERO_INPUT,
            Signal::_Level(Level::High) => ONE_INPUT,
        };
        let index = signal.number() as usize - FUNC_IN_SEL_OFFSET;
        let word = crate::bits::set_bit(crate::bits::set_bit(input as u32, IN_INV_SEL, is_inverted), IN_SEL_GPIO, use_gpio_matrix);
        gpio.func_in_sel_cfg.set(index, word);
    }

    /// Lets peripheral output `signal` drive this pin; nothing for a level.
    pub fn connect_peripheral_to_output(
        &self,
        gpio: &mut GpioRegs,
        io_mux: &mut IoMuxRegs,
        signal: gpio::OutputSignal,
        is_inverted: bool,
        force_gpio: bool,
        peripheral_control_output_enable: bool,
        invert_output_enable: bool,
    )
        requires
            self.wf(),
            old(gpio).wf(),
            old(io_mux).wf(),
        ensures
            output_connected(*old(gpio), *old(io_mux), *final(gpio), *final(io_mux), *self, signal, is_inverted,
                force_gpio, peripheral_control_output_enable, invert_output_enable),
    {
        let pin = match self {
            Signal::Pin(pin) => pin,
            Signal::_Level(_) => { return; },
        };
        proof { lemma_pin_functions(pin.num(), gpio::InputSignal::U0RXD, signal); }
        let af = if is_inverted || force_gpio {
            GPIO_FUNCTION
        } else {
            find_output_function(&pin.output_signals(), signal)
        };
        pin.set_alternate_function(io_mux, af);
        let use_gpio_matrix = af == GPIO_FUNCTION;
        let mut word = FUNC_OUT_SEL_CFG_RESET;
        if use_gpio_matrix {
            word = crate::bits::set_field(word, OUT_SEL_LSB, 8, signal.number() as u32);
            word = crate::bits::set_bit(word, OUT_INV_SEL, is_inverted);
        }
        word = crate::bits::set_bit(word, OEN_SEL, !peripheral_control_output_enable);
        word = crate::bits::set_bit(word, OEN_INV_SEL, invert_output_enable);
        gpio.func_out_sel_cfg.set(pin.pin as usize, word);
    }

    /// Hands the pin's output back to its `GPIO_OUT` bit; nothing for a level.
    pub fn disconnect_from_peripheral_output(&self, gpio: &mut GpioRegs)
        requires
            self.wf(),
            old(gpio).wf(),
        ensures
            output_disconnected(*old(gpio), *final(gpio), *self),
    {
        let number = match self.gpio_number() {
            Some(n) => n,
            None => { return; },
        };
        let n = number as usize;
        let w = gpio.func_out_sel_cfg[n];
        gpio.func_out_sel_cfg.set(n, crate::bits::set_field(w, OUT_SEL_LSB, 8, gpio::OutputSignal::GPIO.number() as u32));
    }
}

/// The base of all peripheral signals: something a peripheral input can be
/// connected to.
pub trait PeripheralSignal {
    /// The pin or level behind this signal.
    spec fn signal(&self) -> Signal;

    /// Whether the signal is inverted on its way into a peripheral.
    spec fn input_inverted(&self) -> bool;

    /// Whether the signal must go through the GPIO matrix.
    spec fn matrix_forced(&self) -> bool;

    /// Connects the peripheral input to this signal.
    fn connect_input_to_peripheral(&self, gpio: &mut GpioRegs, io_mux: &mut IoMuxRegs, signal: gpio::InputSignal)
        requires
            self.signal().wf(),
            old(gpio).wf(),
            old(io_mux).wf(),
        ensures
            input_connected(*old(gpio), *old(io_mux), *final(gpio), *final(io_mux), self.signal(), signal,
                self.input_inverted(), self.matrix_forced()),
    ;
}

/// A signal that can be connected to a peripheral input.
pub trait PeripheralInput: PeripheralSignal {}

/// A signal that can be connected to a peripheral input and/or output.
pub trait PeripheralOutput: PeripheralSignal {
    /// Whether the signal is inverted on its way out of a peripheral.
    spec fn output_inverted(&self) -> bool;

    /// Connects the peripheral output to this signal.
    fn connect_peripheral_to_output(&self, gpio: &mut GpioRegs, io_mux: &mut IoMuxRegs, signal: gpio::OutputSignal)
        requires
            self.signal().wf(),
            old(gpio).wf(),
            old(io_mux).wf(),
        ensures
            output_connected(*old(gpio), *old(io_mux), *final(gpio), *final(io_mux), self.signal(), signal,
                self.output_inverted(), self.matrix_forced(), true, false),
    ;

    /// Disconnects the peripheral output from this signal.
    fn disconnect_from_peripheral_output(&self, gpio: &mut GpioRegs)
        requires
            self.signal().wf(),
            old(gpio).wf(),
        ensures
            output_disconnected(*old(gpio), *final(gpio), self.signal()),
    ;
}

impl PeripheralSignal for AnyPin {
    open spec fn signal(&self) -> Signal {
        Signal::Pin(*self)
    }

    open spec fn input_inverted(&self) -> bool {
        false
    }

    open spec fn matrix_forced(&self) -> bool {
        false
    }

    fn connect_input_to_peripheral(&self, gpio: &mut GpioRegs, io_mux: &mut IoMuxRegs, signal: gpio::InputSignal) {
        let pin = AnyPin::steal(self.pin);
        Signal::Pin(pin).connect_to_peripheral_input(gpio, io_mux, signal, false, false);
    }
}

impl PeripheralInput for AnyPin {}

impl PeripheralOutput for AnyPin {
    open spec fn output_inverted(&self) -> bool {
        false
    }

    fn connect_peripheral_to_output(&self, gpio: &mut GpioRegs, io_mux: &mut IoMuxRegs, signal: gpio::OutputSignal) {
        let pin = AnyPin::steal(self.pin);
        Signal::Pin(pin).connect_peripheral_to_output(gpio, io_mux, signal, false, false, true, false);
    }

    fn disconnect_from_peripheral_output(&self, gpio: &mut GpioRegs) {
        let pin = AnyPin::steal(self.pin);
        Signal::Pin(pin).disconnect_from_peripheral_output(gpio);
    }
}

impl gpio::InputSignal {
    /// Whether the signal can be routed through the GPIO matrix.
    pub fn can_use_gpio_matrix(self) -> (r: bool)
        ensures
            r == (self.code() <= INPUT_SIGNAL_MAX),
    {
        self.number() <= INPUT_SIGNAL_MAX
    }

    /// Connects this peripheral input to a GPIO or a fixed level, replacing
    /// the previous connection.
    pub fn connect_to<P: PeripheralSignal>(self, gpio: &mut GpioRegs, io_mux: &mut IoMuxRegs, pin: &P)
        requires
            pin.signal().wf(),
            old(gpio).wf(),
            old(io_mux).wf(),
        ensures
            input_connected(*old(gpio), *old(io_mux), *final(gpio), *final(io_mux), pin.signal(), self,
                pin.input_inverted(), pin.matrix_forced()),
    {
        pin.connect_input_to_peripheral(gpio, io_mux, self);
    }
}

impl gpio::OutputSignal {
    /// Whether the signal can be routed through the GPIO matrix.
    pub fn can_use_gpio_matrix(self) -> (r: bool)
        ensures
            r == (self.code() <= OUTPUT_SIGNAL_MAX),
    {
        self.number() <= OUTPUT_SIGNAL_MAX
    }

    /// Lets this peripheral output drive a pin.
    pub fn connect_to<P: PeripheralOutput>(self, gpio: &mut GpioRegs, io_mux: &mut IoMuxRegs, pin: &P)
        requires
            pin.signal().wf(),
            old(gpio).wf(),
            old(io_mux).wf(),
        ensures
            output_connected(*old(gpio), *old(io_mux), *final(gpio), *final(io_mux), pin.signal(), self,
                pin.output_inverted(), pin.matrix_forced(), true, false),
    {
        pin.connect_peripheral_to_output(gpio, io_mux, self);
    }

    /// Disconnects this peripheral output from a pin.
    pub fn disconnect_from<P: PeripheralOutput>(self, gpio: &mut GpioRegs, pin: &P)
        requires
            pin.signal().wf(),
            old(gpio).wf(),
        ensures
            output_disconnected(*old(gpio), *final(gpio), pin.signal()),
    {
        pin.disconnect_from_peripheral_output(gpio);
    }
}

/// Flag of a signal that must use the GPIO matrix.
pub const FORCE_GPIO_MATRIX: u8 = 1;
/// Flag of a signal whose pin configuration belongs to a pin driver.
pub const FROZEN: u8 = 2;
/// Flag of a signal inverted on its way into a peripheral.
pub const INVERT_INPUT: u8 = 4;
/// Flag of a signal inverted on its way out of a peripheral.
pub const INVERT_OUTPUT: u8 = 8;

/// An input signal between a peripheral and a GPIO pin.
pub struct InputSignal {
    pub pin: Signal,
    pub flags: u8,
}

impl InputSignal {
    pub fn new_inner(inner: Signal) -> (s: Self)
        ensures
            s.pin == inner,
            s.flags == 0,
    {
        InputSignal { pin: inner, flags: 0 }
    }

    /// The input signal of a pin.
    pub fn new(pin: AnyPin) -> (s: Self)
        ensures
            s.pin == Signal::Pin(pin),
            s.flags == 0,
    {
        Self::new_inner(Signal::Pin(pin))
    }

    /// Whether the signal is inverted.
    pub fn is_input_inverted(&self) -> (r: bool)
        ensures
            r == (self.flags & INVERT_INPUT != 0),
    {
        self.flags & INVERT_INPUT != 0
    }

    /// The signal, forced (or not) through the GPIO matrix.
    pub fn with_gpio_matrix_forced(self, force: bool) -> (s: Self)
        ensures
            s.pin == self.pin,
            s.flags == if force { self.flags | FORCE_GPIO_MATRIX } else { self.flags & !FORCE_GPIO_MATRIX },
    {
        let flags = if force { self.flags | FORCE_GPIO_MATRIX } else { self.flags & !FORCE_GPIO_MATRIX };
        InputSignal { pin: self.pin, flags }
    }

    /// Whether the signal must go through the GPIO matrix.
    pub fn is_gpio_matrix_forced(&self) -> (r: bool)
        ensures
            r == (self.flags & FORCE_GPIO_MATRIX != 0),
    {
        self.flags & FORCE_GPIO_MATRIX != 0
    }

    /// Applies an input configuration to the pin, unless the signal is a
    /// level or its pin belongs to a pin driver.
    pub fn apply_input_config(&self, io_mux: &mut IoMuxRegs, config: &InputConfig)
        requires
            self.pin.wf(),
            old(io_mux).wf(),
        ensures
            final(io_mux).wf(),
            final(io_mux).gpio@ == match self.pin {
                Signal::Pin(p) => if self.flags & FROZEN != 0 { old(io_mux).gpio@ } else {
                    old(io_mux).gpio@.update(p.num() as int, gpio::pad_for_input(old(io_mux).gpio@[p.num() as int], *config))
                },
                Signal::_Level(_) => old(io_mux).gpio@,
            },
    {
        match &self.pin {
            Signal::Pin(_) if self.flags & FROZEN != 0 => NoOp.apply_input_config(config),
            Signal::Pin(pin) => pin.apply_input_config(io_mux, config),
            Signal::_Level(_) => NoOp.apply_input_config(config),
        }
    }

    /// Enables the pin's input buffer, unless the signal is a level or its
    /// pin belongs to a pin driver.
    pub fn set_input_enable(&self, io_mux: &mut IoMuxRegs, on: bool)
        requires
            self.pin.wf(),
            old(io_mux).wf(),
        ensures
            final(io_mux).wf(),
            final(io_mux).gpio@ == match self.pin {
                Signal::Pin(p) => if self.flags & FROZEN != 0 { old(io_mux).gpio@ } else {
                    old(io_mux).gpio@.update(p.num() as int, with_bit(old(io_mux).gpio@[p.num() as int], gpio::IO_MUX_FUN_IE, on))
                },
                Signal::_Level(_) => old(io_mux).gpio@,
            },
    {
        match &self.pin {
            Signal::Pin(_) if self.flags & FROZEN != 0 => NoOp.set_input_enable(on),
            Signal::Pin(pin) => pin.set_input_enable(io_mux, on),
            Signal::_Level(_) => NoOp.set_input_enable(on),
        }
    }
}

impl PeripheralSignal for InputSignal {
    open spec fn signal(&self) -> Signal {
        self.pin
    }

    open spec fn input_inverted(&self) -> bool {
        self.flags & INVERT_INPUT != 0
    }

    open spec fn matrix_forced(&self) -> bool {
        self.flags & FORCE_GPIO_MATRIX != 0
    }

    fn connect_input_to_peripheral(&self, gpio: &mut GpioRegs, io_mux: &mut IoMuxRegs, signal: gpio::InputSignal) {
        let inv = self.is_input_inverted();
        let forced = self.is_gpio_matrix_forced();
        self.pin.connect_to_peripheral_input(gpio, io_mux, signal, inv, forced);
    }
}

impl PeripheralInput for InputSignal {}

/// An (input and) output signal between a peripheral and a GPIO pin.
pub struct OutputSignal {
    pub pin: Signal,
    pub flags: u8,
}

impl OutputSignal {
    pub fn new_inner(inner: Signal) -> (s: Self)
        ensures
            s.pin == inner,
            s.flags == 0,
    {
        OutputSignal { pin: inner, flags: 0 }
    }

    /// The output signal of a pin.
    pub fn new(pin: AnyPin) -> (s: Self)
        ensures
            s.pin == Signal::Pin(pin),
            s.flags == 0,
    {
        Self::new_inner(Signal::Pin(pin))
    }

    /// Whether the signal is inverted on its way into a peripheral.
    pub fn is_input_inverted(&self) -> (r: bool)
        ensures
            r == (self.flags & INVERT_INPUT != 0),
    {
        self.flags & INVERT_INPUT != 0
    }

    /// Whether the signal is inverted on its way out of a peripheral.
    pub fn is_output_inverted(&self) -> (r: bool)
        ensures
            r == (self.flags & INVERT_OUTPUT != 0),
    {
        self.flags & INVERT_OUTPUT != 0
    }

    /// The signal, forced (or not) through the GPIO matrix.
    pub fn with_gpio_matrix_forced(self, force: bool) -> (s: Self)
        ensures
            s.pin == self.pin,
            s.flags == if force { self.flags | FORCE_GPIO_MATRIX } else { self.flags & !FORCE_GPIO_MATRIX },
    {
        let flags = if force { self.flags | FORCE_GPIO_MATRIX } else { self.flags & !FORCE_GPIO_MATRIX };
        OutputSignal { pin: self.pin, flags }
    }

    /// Whether the signal must go through the GPIO matrix.
    pub fn is_gpio_matrix_forced(&self) -> (r: bool)
        ensures
            r == (self.flags & FORCE_GPIO_MATRIX != 0),
    {
        self.flags & FORCE_GPIO_MATRIX != 0
    }

    /// Connects peripheral output `signal` to this pin and returns the guard
    /// that undoes it.
    pub fn connect_with_guard(self, gpio: &mut GpioRegs, io_mux: &mut IoMuxRegs, signal: gpio::OutputSignal) -> (g: PinGuard)
        requires
            self.pin.wf(),
            old(gpio).wf(),
            old(io_mux).wf(),
        ensures
            output_connected(*old(gpio), *old(io_mux), *final(gpio), *final(io_mux), self.pin, signal,
                self.flags & INVERT_OUTPUT != 0, self.flags & FORCE_GPIO_MATRIX != 0, true, false),
            g.pin == match self.pin {
                Signal::Pin(p) => p.num(),
                Signal::_Level(_) => u8::MAX,
            },
    {
        signal.connect_to(gpio, io_mux, &self);
        self.pin.connect_with_guard(signal)
    }

    /// Applies an output configuration to the pin, unless the signal is a
    /// level or its pin belongs to a pin driver.
    pub fn apply_output_config(&self, gpio: &mut GpioRegs, io_mux: &mut IoMuxRegs, config: &OutputConfig)
        requires
            self.pin.wf(),
            old(gpio).wf(),
            old(io_mux).wf(),
        ensures
            final(gpio).wf(),
            final(io_mux).wf(),
            match self.pin {
                Signal::Pin(p) if self.flags & FROZEN == 0 => {
                    &&& final(io_mux).gpio@ == old(io_mux).gpio@.update(p.num() as int,
                        gpio::pad_for_output(old(io_mux).gpio@[p.num() as int], *config))
                    &&& final(gpio).pin@ == old(gpio).pin@.update(p.num() as int,
                        with_bit(old(gpio).pin@[p.num() as int], gpio::PIN_PAD_DRIVER, config.drive_mode == gpio::DriveMode::OpenDrain))
                },
                _ => {
                    &&& final(io_mux).gpio@ == old(io_mux).gpio@
                    &&& final(gpio).pin@ == old(gpio).pin@
                },
            },
            final(gpio).out == old(gpio).out,
            final(gpio).enable_log@ == old(gpio).enable_log@,
            final(gpio).enable == old(gpio).enable,
            final(gpio).func_in_sel_cfg == old(gpio).func_in_sel_cfg,
            final(gpio).func_out_sel_cfg == old(gpio).func_out_sel_cfg,
    {
        match &self.pin {
            Signal::Pin(_) if self.flags & FROZEN != 0 => NoOp.apply_output_config(config),
            Signal::Pin(pin) => pin.apply_output_config(gpio, io_mux, config),
            Signal::_Level(_) => NoOp.apply_output_config(config),
        }
    }

    /// Enables the pin's output driver, unless the signal is a level or its
    /// pin belongs to a pin driver.
    pub fn set_output_enable(&self, gpio: &mut GpioRegs, on: bool)
        requires
            self.pin.wf(),
        ensures
            final(gpio).enable == match self.pin {
                Signal::Pin(p) if self.flags & FROZEN == 0 =>
                    if on { old(gpio).enable | p.spec_mask() } else { old(gpio).enable & !p.spec_mask() },
                _ => old(gpio).enable,
            },
            final(gpio).out == old(gpio).out,
            final(gpio).enable_log@ == match self.pin {
                Signal::Pin(p) if self.flags & FROZEN == 0 && on => old(gpio).enable_log@.push((p.spec_mask(), old(gpio).out)),
                _ => old(gpio).enable_log@,
            },
            final(gpio).pin == old(gpio).pin,
            final(gpio).func_in_sel_cfg == old(gpio).func_in_sel_cfg,
            final(gpio).func_out_sel_cfg == old(gpio).func_out_sel_cfg,
    {
        match &self.pin {
            Signal::Pin(_) if self.flags & FROZEN != 0 => NoOp.set_output_enable(on),
            Signal::Pin(pin) => pin.set_output_enable(gpio, on),
            Signal::_Level(_) => NoOp.set_output_enable(on),
        }
    }

    /// Sets the pin's output level, unless the signal is a level or its pin
    /// belongs to a pin driver.
    pub fn set_output_high(&self, gpio: &mut GpioRegs, on: bool)
        requires
            self.pin.wf(),
        ensures
            final(gpio).out == match self.pin {
                Signal::Pin(p) if self.flags & FROZEN == 0 =>
                    if on { old(gpio).out | p.spec_mask() } else { old(gpio).out & !p.spec_mask() },
                _ => old(gpio).out,
            },
            final(gpio).enable_log@ == old(gpio).enable_log@,
            final(gpio).enable == old(gpio).enable,
            final(gpio).pin == old(gpio).pin,
            final(gpio).func_in_sel_cfg == old(gpio).func_in_sel_cfg,
            final(gpio).func_out_sel_cfg == old(gpio).func_out_sel_cfg,
    {
        match &self.pin {
            Signal::Pin(_) if self.flags & FROZEN != 0 => NoOp.set_output_high(on),
            Signal::Pin(pin) => pin.set_output_high(gpio, on),
            Signal::_Level(_) => NoOp.set_output_high(on),
        }
    }
}

impl PeripheralSignal for OutputSignal {
    open spec fn signal(&self) -> Signal {
        self.pin
    }

    open spec fn input_inverted(&self) -> bool {
        self.flags & INVERT_INPUT != 0
    }

    open spec fn matrix_forced(&self) -> bool {
        self.flags & FORCE_GPIO_MATRIX != 0
    }

    fn connect_input_to_peripheral(&self, gpio: &mut GpioRegs, io_mux: &mut IoMuxRegs, signal: gpio::InputSignal) {
        let inv = self.is_input_inverted();
        let forced = self.is_gpio_matrix_forced();
        self.pin.connect_to_peripheral_input(gpio, io_mux, signal, inv, forced);
    }
}

impl PeripheralOutput for OutputSignal {
    open spec fn output_inverted(&self) -> bool {
        self.flags & INVERT_OUTPUT != 0
    }

    fn connect_peripheral_to_output(&self, gpio: &mut GpioRegs, io_mux: &mut IoMuxRegs, signal: gpio::OutputSignal) {
        let inv = self.is_output_inverted();
        let forced = self.is_gpio_matrix_forced();
        self.pin.connect_peripheral_to_output(gpio, io_mux, signal, inv, forced, true, false);
    }

    fn disconnect_from_peripheral_output(&self, gpio: &mut GpioRegs) {
        self.pin.disconnect_from_peripheral_output(gpio);
    }
}

/// Stands for a signal whose pin settings are not the peripheral driver's to
/// change: every operation leaves the hardware as it is.
pub struct NoOp;

impl NoOp {
    pub fn set_input_enable(&self, _on: bool) {}

    pub fn set_output_enable(&self, _on: bool) {}

    pub fn set_output_high(&self, _on: bool) {}

    pub fn apply_input_config(&self, _config: &InputConfig) {}

    pub fn apply_output_config(&self, _config: &OutputConfig) {}
}

/// The function of the first entry of `table` for `signal`, else the GPIO matrix.
pub open spec fn first_input_function(table: Seq<(AlternateFunction, gpio::InputSignal)>, signal: gpio::InputSignal) -> AlternateFunction
    decreases table.len(),
{
    if table.len() == 0 {
        GPIO_FUNCTION
    } else if table[0].1 == signal {
        table[0].0
    } else {
        first_input_function(table.drop_first(), signal)
    }
}

/// The function of the first entry of `table` for `signal`, else the GPIO matrix.
pub open spec fn first_output_function(table: Seq<(AlternateFunction, gpio::OutputSignal)>, signal: gpio::OutputSignal) -> AlternateFunction
    decreases table.len(),
{
    if table.len() == 0 {
        GPIO_FUNCTION
    } else if table[0].1 == signal {
        table[0].0
    } else {
        first_output_function(table.drop_first(), signal)
    }
}

proof fn lemma_pin_functions(p: u8, si: gpio::InputSignal, so: gpio::OutputSignal)
    ensures
        first_input_function(gpio::pin_input_functions(p), si) == gpio::input_function_for(p, si),
        first_output_function(gpio::pin_output_functions(p), so) == gpio::output_function_for(p, so),
{
    reveal_with_fuel(first_input_function, 2);
    reveal_with_fuel(first_output_function, 2);
    assert(gpio::pin_input_functions(p).len() <= 1);
    if p == 20 {
        assert(gpio::pin_input_functions(p).drop_first().len() == 0);
    }
    if p == 21 {
        assert(gpio::pin_output_functions(p).drop_first().len() == 0);
    }
}

/// The function of the first entry for `signal`, else the GPIO matrix.
fn find_input_function(table: &Vec<(AlternateFunction, gpio::InputSignal)>, signal: gpio::InputSignal) -> (af: AlternateFunction)
    ensures
        af == first_input_function(table@, signal),
{
    let mut i: usize = 0;
    assert(table@.subrange(0, table@.len() as int) =~= table@);
    while i < table.len()
        invariant
            i <= table@.len(),
            first_input_function(table@, signal) == first_input_function(table@.subrange(i as int, table@.len() as int), signal),
        decreases table@.len() - i,
    {
        assert(table@.subrange(i as int, table@.len() as int).drop_first() =~= table@.subrange(i + 1, table@.len() as int));
        if table[i].1 == signal {
            return table[i].0;
        }
        i = i + 1;
    }
    GPIO_FUNCTION
}

/// The function of the first entry for `signal`, else the GPIO matrix.
fn find_output_function(table: &Vec<(AlternateFunction, gpio::OutputSignal)>, signal: gpio::OutputSignal) -> (af: AlternateFunction)
    ensures
        af == first_output_function(table@, signal),
{
    let mut i: usize = 0;
    assert(table@.subrange(0, table@.len() as int) =~= table@);
    while i < table.len()
        invariant
            i <= table@.len(),
            first_output_function(table@, signal) == first_output_function(table@.subrange(i as int, table@.len() as int), signal),
        decreases table@.len() - i,
    {
        assert(table@.subrange(i as int, table@.len() as int).drop_first() =~= table@.subrange(i + 1, table@.len() as int));
        if table[i].1 == signal {
            return table[i].0;
        }
        i = i + 1;
    }
    GPIO_FUNCTION
}

} // verus!
