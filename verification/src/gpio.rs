//! General purpose input/output: pins, their IO MUX pads and the GPIO matrix.
//!
//! The GPIO and IO MUX peripherals are held in [`GpioRegs`] and [`IoMuxRegs`];
//! every pin operation says what it does to them.
use vstd::prelude::*;
use crate::bits::{bit, bit_of, field, field_of, set_bit, set_field, with_bit, with_field};

pub mod interconnect;

verus! {

/// The number of GPIO pins of the chip.
pub const NUM_PINS: u8 = 22;

/// The number of peripheral input signals the GPIO matrix can route.
pub const NUM_INPUT_SIGNALS: usize = 128;

/// `FUNC_IN_SEL_CFG` index of the first peripheral input signal.
pub const FUNC_IN_SEL_OFFSET: usize = 0;

/// Highest peripheral output signal routable through the GPIO matrix.
pub const OUTPUT_SIGNAL_MAX: u8 = 128;

/// Highest peripheral input signal routable through the GPIO matrix.
pub const INPUT_SIGNAL_MAX: u8 = 100;

/// The GPIO matrix input that is always high.
pub const ONE_INPUT: u8 = 0x1e;

/// The GPIO matrix input that is always low.
pub const ZERO_INPUT: u8 = 0x1f;

// IO MUX pad register fields.
pub const IO_MUX_SLP_SEL: u32 = 1;
pub const IO_MUX_FUN_WPD: u32 = 7;
pub const IO_MUX_FUN_WPU: u32 = 8;
pub const IO_MUX_FUN_IE: u32 = 9;
pub const IO_MUX_FUN_DRV_LSB: u32 = 10;
pub const IO_MUX_MCU_SEL_LSB: u32 = 12;

// GPIO matrix register fields.
pub const OUT_SEL_LSB: u32 = 0;
pub const OUT_INV_SEL: u32 = 8;
pub const OEN_SEL: u32 = 9;
pub const OEN_INV_SEL: u32 = 10;
pub const IN_SEL_LSB: u32 = 0;
pub const IN_INV_SEL: u32 = 5;
pub const IN_SEL_GPIO: u32 = 6;
pub const PIN_PAD_DRIVER: u32 = 2;
pub const PIN_INT_ENA_LSB: u32 = 13;

/// Reset value of a `FUNC_OUT_SEL_CFG` register: the pin's output driven by
/// its `GPIO_OUT` bit.
pub const FUNC_OUT_SEL_CFG_RESET: u32 = 0x80;

/// The GPIO peripheral's registers.
pub struct GpioRegs {
    /// `GPIO_OUT`: the output level of each pin; the write-1-to-set and
    /// write-1-to-clear registers act on it.
    pub out: u32,
    /// `GPIO_ENABLE`: the output enable of each pin.
    pub enable: u32,
    /// `GPIO_PINn`, one per pin.
    pub pin: Vec<u32>,
    /// `GPIO_FUNCy_IN_SEL_CFG`, one per peripheral input signal.
    pub func_in_sel_cfg: Vec<u32>,
    /// `GPIO_FUNCn_OUT_SEL_CFG`, one per pin.
    pub func_out_sel_cfg: Vec<u32>,
    /// Each write to `GPIO_ENABLE_W1TS`, in order: the pins whose output
    /// driver it enables, and the output levels at that moment, which the
    /// pins then start to drive.
    pub enable_log: Vec<(u32, u32)>,
}

impl GpioRegs {
    pub open spec fn wf(&self) -> bool {
        &&& self.pin@.len() == NUM_PINS
        &&& self.func_out_sel_cfg@.len() == NUM_PINS
        &&& self.func_in_sel_cfg@.len() == NUM_INPUT_SIGNALS
    }
}

/// The IO MUX peripheral's registers: one pad register per pin.
pub struct IoMuxRegs {
    pub gpio: Vec<u32>,
}

impl IoMuxRegs {
    pub open spec fn wf(&self) -> bool {
        self.gpio@.len() == NUM_PINS
    }
}

/// Digital input or output level.
#[derive(Debug, Eq, PartialEq, Copy, Clone, Hash, Structural)]
pub enum Level {
    /// Low
    Low,
    /// High
    High,
}

impl Level {
    pub open spec fn is_high(self) -> bool {
        self == Level::High
    }

    /// The level as a `bool`: `true` for high.
    pub fn into_bool(self) -> (b: bool)
        ensures
            b == self.is_high(),
    {
        match self {
            Level::Low => false,
            Level::High => true,
        }
    }
}

/// Pull setting for a GPIO.
#[derive(Debug, Eq, PartialEq, Copy, Clone, Hash, Structural)]
pub enum Pull {
    /// No pull
    NoPull,
    /// Pull up
    Up,
    /// Pull down
    Down,
}

/// Drive strength (values are approximates)
#[derive(Debug, Eq, PartialEq, Copy, Clone, Hash, Structural)]
pub enum DriveStrength {
    /// Drive strength of approximately 5mA.
    _5mA,
    /// Drive strength of approximately 10mA.
    _10mA,
    /// Drive strength of approximately 20mA.
    _20mA,
    /// Drive strength of approximately 40mA.
    _40mA,
}

impl DriveStrength {
    /// The pad's `FUN_DRV` code of this strength.
    pub open spec fn code(self) -> u32 {
        match self {
            DriveStrength::_5mA => 0,
            DriveStrength::_10mA => 1,
            DriveStrength::_20mA => 2,
            DriveStrength::_40mA => 3,
        }
    }

    fn bits(self) -> (r: u32)
        ensures
            r == self.code(),
    {
        match self {
            DriveStrength::_5mA => 0,
            DriveStrength::_10mA => 1,
            DriveStrength::_20mA => 2,
            DriveStrength::_40mA => 3,
        }
    }
}

/// Alternate functions of a pin: the IO MUX function it is set to.
#[derive(Debug, Eq, PartialEq, Copy, Clone, Hash, Structural)]
pub enum AlternateFunction {
    /// Alternate function 0.
    _0,
    /// Alternate function 1.
    _1,
    /// Alternate function 2.
    _2,
    /// Alternate function 3.
    _3,
    /// Alternate function 4.
    _4,
    /// Alternate function 5.
    _5,
}

/// The alternate function that connects a pin to the GPIO matrix.
pub const GPIO_FUNCTION: AlternateFunction = AlternateFunction::_1;

impl AlternateFunction {
    /// The function's number.
    pub open spec fn code(self) -> u32 {
        match self {
            AlternateFunction::_0 => 0,
            AlternateFunction::_1 => 1,
            AlternateFunction::_2 => 2,
            AlternateFunction::_3 => 3,
            AlternateFunction::_4 => 4,
            AlternateFunction::_5 => 5,
        }
    }

    fn bits(self) -> (r: u32)
        ensures
            r == self.code(),
    {
        match self {
            AlternateFunction::_0 => 0,
            AlternateFunction::_1 => 1,
            AlternateFunction::_2 => 2,
            AlternateFunction::_3 => 3,
            AlternateFunction::_4 => 4,
            AlternateFunction::_5 => 5,
        }
    }

    /// The alternate function with the given number; `Err` above 5.
    pub fn const_try_from(value: usize) -> (r: Result<Self, ()>)
        ensures
            value <= 5 ==> (r matches Ok(f) && f.code() == value),
            value > 5 ==> r is Err,
    {
        match value {
            0 => Ok(AlternateFunction::_0),
            1 => Ok(AlternateFunction::_1),
            2 => Ok(AlternateFunction::_2),
            3 => Ok(AlternateFunction::_3),
            4 => Ok(AlternateFunction::_4),
            5 => Ok(AlternateFunction::_5),
            _ => Err(()),
        }
    }
}

/// Peripheral input signals of the GPIO matrix.
#[allow(non_camel_case_types)]
#[derive(Debug, PartialEq, Eq, Copy, Clone, Structural)]
pub enum InputSignal {
    U0RXD,
    U1RXD,
}

impl InputSignal {
    /// The signal's number in the GPIO matrix.
    pub open spec fn code(self) -> u8 {
        match self {
            InputSignal::U0RXD => 6,
            InputSignal::U1RXD => 9,
        }
    }

    pub fn number(self) -> (r: u8)
        ensures
            r == self.code(),
    {
        match self {
            InputSignal::U0RXD => 6,
            InputSignal::U1RXD => 9,
        }
    }
}

/// Peripheral output signals of the GPIO matrix.
#[allow(non_camel_case_types)]
#[derive(Debug, PartialEq, Eq, Copy, Clone, Structural)]
pub enum OutputSignal {
    U0TXD,
    U1TXD,
    /// The pin's own `GPIO_OUT` bit.
    GPIO,
}

impl OutputSignal {
    /// The signal's number in the GPIO matrix.
    pub open spec fn code(self) -> u8 {
        match self {
            OutputSignal::U0TXD => 6,
            OutputSignal::U1TXD => 9,
            OutputSignal::GPIO => 128,
        }
    }

    pub fn number(self) -> (r: u8)
        ensures
            r == self.code(),
    {
        match self {
            OutputSignal::U0TXD => 6,
            OutputSignal::U1TXD => 9,
            OutputSignal::GPIO => 128,
        }
    }
}

/// The IO MUX functions through which a pin reads a peripheral input directly.
pub open spec fn pin_input_functions(pin: u8) -> Seq<(AlternateFunction, InputSignal)> {
    if pin == 20 { seq![(AlternateFunction::_0, InputSignal::U0RXD)] } else { seq![] }
}

/// The IO MUX functions through which a pin drives a peripheral output directly.
pub open spec fn pin_output_functions(pin: u8) -> Seq<(AlternateFunction, OutputSignal)> {
    if pin == 21 { seq![(AlternateFunction::_0, OutputSignal::U0TXD)] } else { seq![] }
}

/// The function a pin is set to for reading `signal`: a direct one where the
/// pin has it, else the GPIO matrix.
pub open spec fn input_function_for(pin: u8, signal: InputSignal) -> AlternateFunction {
    if pin == 20 && signal == InputSignal::U0RXD { AlternateFunction::_0 } else { GPIO_FUNCTION }
}

/// The function a pin is set to for driving `signal`.
pub open spec fn output_function_for(pin: u8, signal: OutputSignal) -> AlternateFunction {
    if pin == 21 && signal == OutputSignal::U0TXD { AlternateFunction::_0 } else { GPIO_FUNCTION }
}

/// Common trait implemented by pins.
pub trait Pin {
    /// GPIO number
    fn number(&self) -> (n: u8);

    /// Type-erase this pin into an [`AnyPin`].
    fn degrade(self) -> (p: AnyPin)
        where Self: Sized
    ;

    /// The peripheral outputs this pin can drive without the GPIO matrix.
    fn output_signals(&self) -> Vec<(AlternateFunction, OutputSignal)>;

    /// The peripheral inputs this pin can feed without the GPIO matrix.
    fn input_signals(&self) -> Vec<(AlternateFunction, InputSignal)>;
}

/// Trait implemented by pins which can be used as inputs.
pub trait InputPin: Pin {}

/// Trait implemented by pins which can be used as outputs.
pub trait OutputPin: Pin {}

/// A bank of pins, sharing the output and enable registers.
#[derive(Debug, Eq, PartialEq, Copy, Clone, Hash, Structural)]
pub enum GpioBank {
    _0,
}

impl GpioBank {
    /// Enables (or disables) the outputs of the pins set in `word`.
    pub fn write_out_en(self, gpio: &mut GpioRegs, word: u32, enable: bool)
        ensures
            final(gpio).enable == if enable { old(gpio).enable | word } else { old(gpio).enable & !word },
            final(gpio).out == old(gpio).out,
            final(gpio).enable_log@ == if enable { old(gpio).enable_log@.push((word, old(gpio).out)) } else { old(gpio).enable_log@ },
            final(gpio).pin == old(gpio).pin,
            final(gpio).func_in_sel_cfg == old(gpio).func_in_sel_cfg,
            final(gpio).func_out_sel_cfg == old(gpio).func_out_sel_cfg,
    {
        if enable {
            self.write_out_en_set(gpio, word);
        } else {
            self.write_out_en_clear(gpio, word);
        }
    }

    /// Writes `word` to the write-1-to-clear output enable register.
    pub fn write_out_en_clear(self, gpio: &mut GpioRegs, word: u32)
        ensures
            final(gpio).enable == old(gpio).enable & !word,
            final(gpio).out == old(gpio).out,
            final(gpio).enable_log@ == old(gpio).enable_log@,
            final(gpio).pin == old(gpio).pin,
            final(gpio).func_in_sel_cfg == old(gpio).func_in_sel_cfg,
            final(gpio).func_out_sel_cfg == old(gpio).func_out_sel_cfg,
    {
        match self {
            GpioBank::_0 => { gpio.enable = gpio.enable & !word; }
        }
    }

    /// Writes `word` to the write-1-to-set output enable register.
    pub fn write_out_en_set(self, gpio: &mut GpioRegs, word: u32)
        ensures
            final(gpio).enable == old(gpio).enable | word,
            final(gpio).out == old(gpio).out,
            final(gpio).enable_log@ == old(gpio).enable_log@.push((word, old(gpio).out)),
            final(gpio).pin == old(gpio).pin,
            final(gpio).func_in_sel_cfg == old(gpio).func_in_sel_cfg,
            final(gpio).func_out_sel_cfg == old(gpio).func_out_sel_cfg,
    {
        match self {
            GpioBank::_0 => {
                let level = gpio.out;
                gpio.enable = gpio.enable | word;
                gpio.enable_log.push((word, level));
            },
        }
    }

    /// Sets (or clears) the output levels of the pins set in `word`.
    pub fn write_output(self, gpio: &mut GpioRegs, word: u32, set: bool)
        ensures
            final(gpio).out == if set { old(gpio).out | word } else { old(gpio).out & !word },
            final(gpio).enable_log@ == old(gpio).enable_log@,
            final(gpio).enable == old(gpio).enable,
            final(gpio).pin == old(gpio).pin,
            final(gpio).func_in_sel_cfg == old(gpio).func_in_sel_cfg,
            final(gpio).func_out_sel_cfg == old(gpio).func_out_sel_cfg,
    {
        if set {
            self.write_output_set(gpio, word);
        } else {
            self.write_output_clear(gpio, word);
        }
    }

    /// Writes `word` to the write-1-to-set output register.
    pub fn write_output_set(self, gpio: &mut GpioRegs, word: u32)
        ensures
            final(gpio).out == old(gpio).out | word,
            final(gpio).enable_log@ == old(gpio).enable_log@,
            final(gpio).enable == old(gpio).enable,
            final(gpio).pin == old(gpio).pin,
            final(gpio).func_in_sel_cfg == old(gpio).func_in_sel_cfg,
            final(gpio).func_out_sel_cfg == old(gpio).func_out_sel_cfg,
    {
        match self {
            GpioBank::_0 => { gpio.out = gpio.out | word; }
        }
    }

    /// Writes `word` to the write-1-to-clear output register.
    pub fn write_output_clear(self, gpio: &mut GpioRegs, word: u32)
        ensures
            final(gpio).out == old(gpio).out & !word,
            final(gpio).enable_log@ == old(gpio).enable_log@,
            final(gpio).enable == old(gpio).enable,
            final(gpio).pin == old(gpio).pin,
            final(gpio).func_in_sel_cfg == old(gpio).func_in_sel_cfg,
            final(gpio).func_out_sel_cfg == old(gpio).func_out_sel_cfg,
    {
        match self {
            GpioBank::_0 => { gpio.out = gpio.out & !word; }
        }
    }
}

/// Any GPIO pin.
#[derive(Debug)]
pub struct AnyPin {
    pub pin: u8,
}

/// The IO MUX pad word of a pin set to plain GPIO use: GPIO function, input
/// buffer off, no sleep selection.
pub open spec fn pad_for_gpio(word: u32) -> u32 {
    with_bit(with_bit(with_field(word, IO_MUX_MCU_SEL_LSB, 3, GPIO_FUNCTION.code()), IO_MUX_FUN_IE, false), IO_MUX_SLP_SEL, false)
}

/// The IO MUX pad word after applying an output configuration.
pub open spec fn pad_for_output(word: u32, config: OutputConfig) -> u32 {
    with_bit(with_bit(with_field(word, IO_MUX_FUN_DRV_LSB, 2, config.drive_strength.code()),
        IO_MUX_FUN_WPU, config.pull == Pull::Up), IO_MUX_FUN_WPD, config.pull == Pull::Down)
}

/// An output configuration sets the pad's `FUN_DRV` field to the hardware
/// code of the requested drive strength (0 for 5 mA, 1 for 10 mA, 2 for
/// 20 mA, 3 for 40 mA: each step doubles the current), sets the pull-up and
/// pull-down bits as the pull asks, and leaves every other bit of the pad
/// as it was.
pub proof fn lemma_output_pad_fields(word: u32, config: OutputConfig)
    ensures
        field_of(pad_for_output(word, config), IO_MUX_FUN_DRV_LSB, 2) == match config.drive_strength {
            DriveStrength::_5mA => 0u32,
            DriveStrength::_10mA => 1u32,
            DriveStrength::_20mA => 2u32,
            DriveStrength::_40mA => 3u32,
        },
        (5u32 << field_of(pad_for_output(word, config), IO_MUX_FUN_DRV_LSB, 2)) == match config.drive_strength {
            DriveStrength::_5mA => 5u32,
            DriveStrength::_10mA => 10u32,
            DriveStrength::_20mA => 20u32,
            DriveStrength::_40mA => 40u32,
        },
        bit_of(pad_for_output(word, config), IO_MUX_FUN_WPU) == (config.pull == Pull::Up),
        bit_of(pad_for_output(word, config), IO_MUX_FUN_WPD) == (config.pull == Pull::Down),
        forall|n: u32| n < 32 && n != IO_MUX_FUN_WPU && n != IO_MUX_FUN_WPD && n != 10 && n != 11 ==>
            #[trigger] bit_of(pad_for_output(word, config), n) == bit_of(word, n),
{
    let v = config.drive_strength.code();
    let up = config.pull == Pull::Up;
    let down = config.pull == Pull::Down;
    crate::bits::lemma_small_masks();
    let w1 = (word & !(3u32 << 10u32)) | ((v & 3u32) << 10u32);
    assert(with_field(word, IO_MUX_FUN_DRV_LSB, 2, v) == w1);
    let w2 = if up { w1 | (1u32 << 8u32) } else { w1 & !(1u32 << 8u32) };
    let w3 = if down { w2 | (1u32 << 7u32) } else { w2 & !(1u32 << 7u32) };
    assert(pad_for_output(word, config) == w3);
    assert(v < 4 ==> {
        &&& (w3 >> 10u32) & 3u32 == v
        &&& ((w3 >> 8u32) & 1u32 == 1u32) == up
        &&& ((w3 >> 7u32) & 1u32 == 1u32) == down
    }) by (bit_vector)
        requires
            w1 == (word & !(3u32 << 10u32)) | ((v & 3u32) << 10u32),
            w2 == if up { w1 | (1u32 << 8u32) } else { w1 & !(1u32 << 8u32) },
            w3 == if down { w2 | (1u32 << 7u32) } else { w2 & !(1u32 << 7u32) };
    assert forall|n: u32| n < 32 && n != IO_MUX_FUN_WPU && n != IO_MUX_FUN_WPD && n != 10 && n != 11 implies
        #[trigger] bit_of(pad_for_output(word, config), n) == bit_of(word, n) by {
        assert((w3 >> n) & 1u32 == (word >> n) & 1u32) by (bit_vector)
            requires
                n < 32u32, n != 7u32, n != 8u32, n != 10u32, n != 11u32,
                w1 == (word & !(3u32 << 10u32)) | ((v & 3u32) << 10u32),
                w2 == if up { w1 | (1u32 << 8u32) } else { w1 & !(1u32 << 8u32) },
                w3 == if down { w2 | (1u32 << 7u32) } else { w2 & !(1u32 << 7u32) };
    }
    let f = field_of(pad_for_output(word, config), IO_MUX_FUN_DRV_LSB, 2);
    assert(f == v);
}

/// The IO MUX pad word after applying an input configuration.
pub open spec fn pad_for_input(word: u32, config: InputConfig) -> u32 {
    with_bit(with_bit(word, IO_MUX_FUN_WPD, config.pull == Pull::Down), IO_MUX_FUN_WPU, config.pull == Pull::Up)
}

/// An input configuration enables the pad's pull-up exactly for a pull-up
/// and its pull-down exactly for a pull-down, and leaves every other bit of
/// the pad as it was.
pub proof fn lemma_input_pad_pulls(word: u32, config: InputConfig)
    ensures
        bit_of(pad_for_input(word, config), IO_MUX_FUN_WPU) == (config.pull == Pull::Up),
        bit_of(pad_for_input(word, config), IO_MUX_FUN_WPD) == (config.pull == Pull::Down),
        forall|n: u32| n < 32 && n != IO_MUX_FUN_WPU && n != IO_MUX_FUN_WPD ==>
            #[trigger] bit_of(pad_for_input(word, config), n) == bit_of(word, n),
{
    let w1 = with_bit(word, IO_MUX_FUN_WPD, config.pull == Pull::Down);
    crate::bits::lemma_bit_roundtrip(word, IO_MUX_FUN_WPD, config.pull == Pull::Down);
    crate::bits::lemma_bit_roundtrip(w1, IO_MUX_FUN_WPU, config.pull == Pull::Up);
}

impl AnyPin {
    pub open spec fn wf(&self) -> bool {
        self.pin < NUM_PINS
    }

    pub open spec fn num(&self) -> u8 {
        self.pin
    }

    /// The pin's bit in the bank registers.
    pub open spec fn spec_mask(&self) -> u32 {
        1u32 << ((self.pin % 32) as u32)
    }

    /// The pin with the given number.
    pub fn steal(pin: u8) -> (p: Self)
        requires
            pin < NUM_PINS,
        ensures
            p.wf(),
            p.num() == pin,
    {
        AnyPin { pin }
    }

    /// Another handle to the same pin.
    pub fn clone_unchecked(&self) -> (p: Self)
        ensures
            p.num() == self.num(),
    {
        AnyPin { pin: self.pin }
    }

    /// The bank the pin belongs to.
    pub fn bank(&self) -> (b: GpioBank)
        ensures
            b == GpioBank::_0,
    {
        GpioBank::_0
    }

    /// The pin's bit in the bank registers.
    pub fn mask(&self) -> (m: u32)
        ensures
            m == self.spec_mask(),
    {
        1u32 << ((self.pin % 32) as u32)
    }

    /// Whether the pin can drive an output.
    pub fn is_output(&self) -> (r: bool)
        ensures
            r == (self.num() < NUM_PINS),
    {
        self.pin < NUM_PINS
    }

    /// Resets the pin to a known state: output off, output driven by its
    /// `GPIO_OUT` bit, pad set to GPIO with its input buffer off.
    pub fn init_gpio(&self, gpio: &mut GpioRegs, io_mux: &mut IoMuxRegs)
        requires
            self.wf(),
            old(gpio).wf(),
            old(io_mux).wf(),
        ensures
            final(gpio).wf(),
            final(io_mux).wf(),
            final(gpio).enable == old(gpio).enable & !self.spec_mask(),
            final(gpio).out == old(gpio).out,
            final(gpio).enable_log@ == old(gpio).enable_log@,
            final(gpio).pin == old(gpio).pin,
            final(gpio).func_in_sel_cfg == old(gpio).func_in_sel_cfg,
            final(gpio).func_out_sel_cfg@ == old(gpio).func_out_sel_cfg@.update(self.num() as int,
                with_field(old(gpio).func_out_sel_cfg@[self.num() as int], OUT_SEL_LSB, 8, OutputSignal::GPIO.code() as u32)),
            final(io_mux).gpio@ == old(io_mux).gpio@.update(self.num() as int,
                pad_for_gpio(old(io_mux).gpio@[self.num() as int])),
    {
        self.set_output_enable(gpio, false);
        let n = self.pin as usize;
        let w = gpio.func_out_sel_cfg[n];
        gpio.func_out_sel_cfg.set(n, set_field(w, OUT_SEL_LSB, 8, OutputSignal::GPIO.number() as u32));
        let pad = io_mux.gpio[n];
        let pad = set_field(pad, IO_MUX_MCU_SEL_LSB, 3, GPIO_FUNCTION.bits());
        let pad = set_bit(pad, IO_MUX_FUN_IE, false);
        let pad = set_bit(pad, IO_MUX_SLP_SEL, false);
        io_mux.gpio.set(n, pad);
    }

    /// Selects the pin's IO MUX function.
    pub fn set_alternate_function(&self, io_mux: &mut IoMuxRegs, alternate: AlternateFunction)
        requires
            self.wf(),
            old(io_mux).wf(),
        ensures
            final(io_mux).wf(),
            final(io_mux).gpio@ == old(io_mux).gpio@.update(self.num() as int,
                with_field(old(io_mux).gpio@[self.num() as int], IO_MUX_MCU_SEL_LSB, 3, alternate.code())),
    {
        let n = self.pin as usize;
        let pad = io_mux.gpio[n];
        io_mux.gpio.set(n, set_field(pad, IO_MUX_MCU_SEL_LSB, 3, alternate.bits()));
    }

    /// Enables or disables the pin's output driver.
    pub fn set_output_enable(&self, gpio: &mut GpioRegs, enable: bool)
        requires
            self.wf(),
        ensures
            final(gpio).enable == if enable { old(gpio).enable | self.spec_mask() } else { old(gpio).enable & !self.spec_mask() },
            final(gpio).out == old(gpio).out,
            final(gpio).enable_log@ == if enable { old(gpio).enable_log@.push((self.spec_mask(), old(gpio).out)) } else { old(gpio).enable_log@ },
            final(gpio).pin == old(gpio).pin,
            final(gpio).func_in_sel_cfg == old(gpio).func_in_sel_cfg,
            final(gpio).func_out_sel_cfg == old(gpio).func_out_sel_cfg,
    {
        let m = self.mask();
        self.bank().write_out_en(gpio, m, enable);
    }

    /// Enables or disables the pin's input buffer.
    pub fn set_input_enable(&self, io_mux: &mut IoMuxRegs, on: bool)
        requires
            self.wf(),
            old(io_mux).wf(),
        ensures
            final(io_mux).wf(),
            final(io_mux).gpio@ == old(io_mux).gpio@.update(self.num() as int,
                with_bit(old(io_mux).gpio@[self.num() as int], IO_MUX_FUN_IE, on)),
    {
        let n = self.pin as usize;
        let pad = io_mux.gpio[n];
        io_mux.gpio.set(n, set_bit(pad, IO_MUX_FUN_IE, on));
    }

    /// Applies an input configuration: the pad's pull resistors.
    pub fn apply_input_config(&self, io_mux: &mut IoMuxRegs, config: &InputConfig)
        requires
            self.wf(),
            old(io_mux).wf(),
        ensures
            final(io_mux).wf(),
            final(io_mux).gpio@ == old(io_mux).gpio@.update(self.num() as int,
                pad_for_input(old(io_mux).gpio@[self.num() as int], *config)),
    {
        let pull_up = config.pull == Pull::Up;
        let pull_down = config.pull == Pull::Down;
        let n = self.pin as usize;
        let pad = io_mux.gpio[n];
        let pad = set_bit(pad, IO_MUX_FUN_WPD, pull_down);
        let pad = set_bit(pad, IO_MUX_FUN_WPU, pull_up);
        io_mux.gpio.set(n, pad);
    }

    /// Runs `f`; on real hardware under the GPIO lock when the pin's
    /// interrupt is enabled, so as not to race with the interrupt handler.
    pub fn with_gpio_lock<F: FnOnce() -> R, R>(&self, gpio: &GpioRegs, f: F) -> (r: R)
        requires
            self.wf(),
            gpio.wf(),
            f.requires(()),
        ensures
            f.ensures((), r),
    {
        if is_int_enabled(gpio, self.pin) {
            f()
        } else {
            f()
        }
    }

    /// Applies an output configuration: drive strength and pulls on the pad,
    /// open drain or push-pull in the pin register.
    pub fn apply_output_config(&self, gpio: &mut GpioRegs, io_mux: &mut IoMuxRegs, config: &OutputConfig)
        requires
            self.wf(),
            old(gpio).wf(),
            old(io_mux).wf(),
        ensures
            final(gpio).wf(),
            final(io_mux).wf(),
            final(io_mux).gpio@ == old(io_mux).gpio@.update(self.num() as int,
                pad_for_output(old(io_mux).gpio@[self.num() as int], *config)),
            final(gpio).pin@ == old(gpio).pin@.update(self.num() as int,
                with_bit(old(gpio).pin@[self.num() as int], PIN_PAD_DRIVER, config.drive_mode == DriveMode::OpenDrain)),
            final(gpio).out == old(gpio).out,
            final(gpio).enable_log@ == old(gpio).enable_log@,
            final(gpio).enable == old(gpio).enable,
            final(gpio).func_in_sel_cfg == old(gpio).func_in_sel_cfg,
            final(gpio).func_out_sel_cfg == old(gpio).func_out_sel_cfg,
    {
        let pull_up = config.pull == Pull::Up;
        let pull_down = config.pull == Pull::Down;
        let n = self.pin as usize;
        let pad = io_mux.gpio[n];
        let pad = set_field(pad, IO_MUX_FUN_DRV_LSB, 2, config.drive_strength.bits());
        let pad = set_bit(pad, IO_MUX_FUN_WPU, pull_up);
        let pad = set_bit(pad, IO_MUX_FUN_WPD, pull_down);
        io_mux.gpio.set(n, pad);
        let w = gpio.pin[n];
        gpio.pin.set(n, set_bit(w, PIN_PAD_DRIVER, config.drive_mode == DriveMode::OpenDrain));
    }

    /// Sets the pin's output level.
    pub fn set_output_high(&self, gpio: &mut GpioRegs, high: bool)
        requires
            self.wf(),
        ensures
            final(gpio).out == if high { old(gpio).out | self.spec_mask() } else { old(gpio).out & !self.spec_mask() },
            final(gpio).enable_log@ == old(gpio).enable_log@,
            final(gpio).enable == old(gpio).enable,
            final(gpio).pin == old(gpio).pin,
            final(gpio).func_in_sel_cfg == old(gpio).func_in_sel_cfg,
            final(gpio).func_out_sel_cfg == old(gpio).func_out_sel_cfg,
    {
        let m = self.mask();
        self.bank().write_output(gpio, m, high);
    }
}

impl Pin for AnyPin {
    fn number(&self) -> (n: u8)
        ensures
            n == self.num(),
    {
        self.pin
    }

    fn degrade(self) -> (p: AnyPin)
        ensures
            p == self,
    {
        self
    }

    fn output_signals(&self) -> (r: Vec<(AlternateFunction, OutputSignal)>)
        ensures
            r@ == pin_output_functions(self.num()),
    {
        let mut v: Vec<(AlternateFunction, OutputSignal)> = Vec::new();
        if self.pin == 21 {
            v.push((AlternateFunction::_0, OutputSignal::U0TXD));
        }
        proof { assert(v@ =~= pin_output_functions(self.num())); }
        v
    }

    fn input_signals(&self) -> (r: Vec<(AlternateFunction, InputSignal)>)
        ensures
            r@ == pin_input_functions(self.num()),
    {
        let mut v: Vec<(AlternateFunction, InputSignal)> = Vec::new();
        if self.pin == 20 {
            v.push((AlternateFunction::_0, InputSignal::U0RXD));
        }
        proof { assert(v@ =~= pin_input_functions(self.num())); }
        v
    }
}

impl InputPin for AnyPin {}

impl OutputPin for AnyPin {}

/// Whether the interrupt of pin `gpio_num` is enabled.
pub fn is_int_enabled(gpio: &GpioRegs, gpio_num: u8) -> (r: bool)
    requires
        gpio.wf(),
        gpio_num < NUM_PINS,
    ensures
        r == (field_of(gpio.pin@[gpio_num as int], PIN_INT_ENA_LSB, 5) != 0),
{
    field(gpio.pin[gpio_num as usize], PIN_INT_ENA_LSB, 5) != 0
}

/// The drive mode of the output pin.
#[derive(Debug, Clone, Copy, PartialEq, Eq, Hash, Structural)]
pub enum DriveMode {
    /// Push-pull output.
    PushPull,
    /// Open drain output.
    OpenDrain,
}

/// Output pin configuration: by default push-pull, about 20 mA, no pull.
#[derive(Debug, Clone, Copy, PartialEq, Eq, Structural)]
pub struct OutputConfig {
    pub drive_mode: DriveMode,
    pub drive_strength: DriveStrength,
    pub pull: Pull,
}

impl OutputConfig {
    /// The default configuration.
    pub fn default() -> (c: Self)
        ensures
            c.drive_mode == DriveMode::PushPull,
            c.drive_strength == DriveStrength::_20mA,
            c.pull == Pull::NoPull,
    {
        OutputConfig { drive_mode: DriveMode::PushPull, drive_strength: DriveStrength::_20mA, pull: Pull::NoPull }
    }

    /// This configuration with the given drive mode.
    pub fn with_drive_mode(self, drive_mode: DriveMode) -> (c: Self)
        ensures
            c == (OutputConfig { drive_mode, ..self }),
    {
        OutputConfig { drive_mode, ..self }
    }

    /// This configuration with the given drive strength.
    pub fn with_drive_strength(self, drive_strength: DriveStrength) -> (c: Self)
        ensures
            c == (OutputConfig { drive_strength, ..self }),
    {
        OutputConfig { drive_strength, ..self }
    }

    /// This configuration with the given pull.
    pub fn with_pull(self, pull: Pull) -> (c: Self)
        ensures
            c == (OutputConfig { pull, ..self }),
    {
        OutputConfig { pull, ..self }
    }
}

/// Input pin configuration: by default no pull.
#[derive(Debug, Clone, Copy, PartialEq, Eq, Structural)]
pub struct InputConfig {
    pub pull: Pull,
}

impl InputConfig {
    /// The default configuration.
    pub fn default() -> (c: Self)
        ensures
            c.pull == Pull::NoPull,
    {
        InputConfig { pull: Pull::NoPull }
    }

    /// Sets the pull and returns the configuration.
    pub fn with_pull(&mut self, pull: Pull) -> (c: Self)
        ensures
            final(self).pull == pull,
            c == *final(self),
    {
        self.pull = pull;
        *self
    }
}

/// A pin–peripheral output connection; releasing it disconnects the pin
/// from the peripheral output.
#[derive(Debug)]
pub struct PinGuard {
    pub pin: u8,
}

impl PinGuard {
    /// A guard for the pin.
    pub fn new(pin: AnyPin) -> (g: Self)
        ensures
            g.pin == pin.num(),
    {
        PinGuard { pin: pin.pin }
    }

    /// A guard connected to no pin.
    pub fn new_unconnected() -> (g: Self)
        ensures
            g.pin == u8::MAX,
    {
        PinGuard { pin: u8::MAX }
    }

    /// Releases the guard: a connected pin's output goes back to its
    /// `GPIO_OUT` bit.
    pub fn release(self, gpio: &mut GpioRegs)
        requires
            old(gpio).wf(),
            self.pin == u8::MAX || self.pin < NUM_PINS,
        ensures
            final(gpio).wf(),
            final(gpio).func_out_sel_cfg@ == if self.pin == u8::MAX {
                old(gpio).func_out_sel_cfg@
            } else {
                old(gpio).func_out_sel_cfg@.update(self.pin as int,
                    with_field(old(gpio).func_out_sel_cfg@[self.pin as int], OUT_SEL_LSB, 8, OutputSignal::GPIO.code() as u32))
            },
            final(gpio).out == old(gpio).out,
            final(gpio).enable_log@ == old(gpio).enable_log@,
            final(gpio).enable == old(gpio).enable,
            final(gpio).pin == old(gpio).pin,
            final(gpio).func_in_sel_cfg == old(gpio).func_in_sel_cfg,
    {
        if self.pin != u8::MAX {
            let pin = AnyPin::steal(self.pin);
            interconnect::Signal::Pin(pin).disconnect_from_peripheral_output(gpio);
        }
    }
}

impl AnyPin {
    /// Splits the pin into an input and an output signal, both forced
    /// through the GPIO matrix, after resetting the pin and turning its
    /// input buffer on.
    pub fn split(self, gpio: &mut GpioRegs, io_mux: &mut IoMuxRegs) -> (r: (interconnect::InputSignal, interconnect::OutputSignal))
        requires
            self.wf(),
            old(gpio).wf(),
            old(io_mux).wf(),
        ensures
            final(gpio).wf(),
            final(io_mux).wf(),
            final(gpio).enable == old(gpio).enable & !self.spec_mask(),
            final(gpio).out == old(gpio).out,
            final(gpio).enable_log@ == old(gpio).enable_log@,
            final(gpio).pin == old(gpio).pin,
            final(gpio).func_in_sel_cfg == old(gpio).func_in_sel_cfg,
            final(gpio).func_out_sel_cfg@ == old(gpio).func_out_sel_cfg@.update(self.num() as int,
                with_field(old(gpio).func_out_sel_cfg@[self.num() as int], OUT_SEL_LSB, 8, OutputSignal::GPIO.code() as u32)),
            final(io_mux).gpio@ == old(io_mux).gpio@.update(self.num() as int,
                with_bit(pad_for_gpio(old(io_mux).gpio@[self.num() as int]), IO_MUX_FUN_IE, true)),
            r.0.pin == interconnect::Signal::Pin(self),
            r.0.flags == interconnect::FORCE_GPIO_MATRIX,
            r.1.pin == interconnect::Signal::Pin(self),
            r.1.flags == interconnect::FORCE_GPIO_MATRIX,
    {
        self.init_gpio(gpio, io_mux);
        self.set_input_enable(io_mux, true);
        let (input, output) = self.split_no_init();
        let output = output.with_gpio_matrix_forced(true);
        proof {
            assert(0u8 | 1u8 == 1u8) by (bit_vector);
            assert(1u8 | 1u8 == 1u8) by (bit_vector);
        }
        (input, output)
    }

    /// Splits the pin into its input signal, forced through the GPIO matrix,
    /// and its output signal, without touching the hardware.
    pub fn split_no_init(self) -> (r: (interconnect::InputSignal, interconnect::OutputSignal))
        ensures
            r.0.pin == interconnect::Signal::Pin(self),
            r.0.flags == interconnect::FORCE_GPIO_MATRIX,
            r.1.pin == interconnect::Signal::Pin(self),
            r.1.flags == 0,
    {
        let input = interconnect::InputSignal::new(self.clone_unchecked());
        let output = interconnect::OutputSignal::new(self);
        let input = input.with_gpio_matrix_forced(true);
        proof { assert(0u8 | 1u8 == 1u8) by (bit_vector); }
        (input, output)
    }
}

/// A pin driver that can act as an input, an output or both.
#[derive(Debug)]
pub struct Flex {
    pub pin: AnyPin,
}

impl Flex {
    /// A driver for `pin`; no mode change happens.
    pub fn new(pin: AnyPin) -> (f: Self)
        ensures
            f.pin == pin,
    {
        let pin = pin.degrade();
        Flex { pin }
    }

    /// Applies an output configuration; does not enable the output.
    pub fn apply_output_config(&mut self, gpio: &mut GpioRegs, io_mux: &mut IoMuxRegs, config: &OutputConfig)
        requires
            old(self).pin.wf(),
            old(gpio).wf(),
            old(io_mux).wf(),
        ensures
            *final(self) == *old(self),
            final(gpio).wf(),
            final(io_mux).wf(),
            final(io_mux).gpio@ == old(io_mux).gpio@.update(old(self).pin.num() as int,
                pad_for_output(old(io_mux).gpio@[old(self).pin.num() as int], *config)),
            final(gpio).pin@ == old(gpio).pin@.update(old(self).pin.num() as int,
                with_bit(old(gpio).pin@[old(self).pin.num() as int], PIN_PAD_DRIVER, config.drive_mode == DriveMode::OpenDrain)),
            final(gpio).out == old(gpio).out,
            final(gpio).enable_log@ == old(gpio).enable_log@,
            final(gpio).enable == old(gpio).enable,
            final(gpio).func_in_sel_cfg == old(gpio).func_in_sel_cfg,
            final(gpio).func_out_sel_cfg == old(gpio).func_out_sel_cfg,
    {
        self.pin.apply_output_config(gpio, io_mux, config);
    }

    /// Sets the output level.
    pub fn set_level(&mut self, gpio: &mut GpioRegs, level: Level)
        requires
            old(self).pin.wf(),
        ensures
            *final(self) == *old(self),
            final(gpio).out == if level.is_high() { old(gpio).out | old(self).pin.spec_mask() } else { old(gpio).out & !old(self).pin.spec_mask() },
            final(gpio).enable_log@ == old(gpio).enable_log@,
            final(gpio).enable == old(gpio).enable,
            final(gpio).pin == old(gpio).pin,
            final(gpio).func_in_sel_cfg == old(gpio).func_in_sel_cfg,
            final(gpio).func_out_sel_cfg == old(gpio).func_out_sel_cfg,
    {
        self.pin.set_output_high(gpio, level.into_bool());
    }
}

/// Push-pull digital output.
#[derive(Debug)]
pub struct Output {
    pub pin: Flex,
}

impl Output {
    /// A new output driver: the pin is set to `initial_level`, configured,
    /// and its output driver enabled.
    pub fn new(pin: AnyPin, initial_level: Level, config: OutputConfig, gpio: &mut GpioRegs, io_mux: &mut IoMuxRegs) -> (o: Self)
        requires
            pin.wf(),
            old(gpio).wf(),
            old(io_mux).wf(),
        ensures
            o.pin.pin == pin,
            final(gpio).wf(),
            final(io_mux).wf(),
            final(gpio).enable == old(gpio).enable | pin.spec_mask(),
            final(gpio).out == if initial_level.is_high() { old(gpio).out | pin.spec_mask() } else { old(gpio).out & !pin.spec_mask() },
            // the level is written before the output driver is enabled
            final(gpio).enable_log@ == old(gpio).enable_log@.push((pin.spec_mask(), final(gpio).out)),
            final(gpio).pin@ == old(gpio).pin@.update(pin.num() as int,
                with_bit(old(gpio).pin@[pin.num() as int], PIN_PAD_DRIVER, config.drive_mode == DriveMode::OpenDrain)),
            final(gpio).func_in_sel_cfg == old(gpio).func_in_sel_cfg,
            final(gpio).func_out_sel_cfg == old(gpio).func_out_sel_cfg,
            final(io_mux).gpio@ == old(io_mux).gpio@.update(pin.num() as int,
                pad_for_output(old(io_mux).gpio@[pin.num() as int], config)),
    {
        let mut this = Output { pin: Flex::new(pin) };
        this.set_level(gpio, initial_level);
        this.apply_config(gpio, io_mux, &config);
        this.pin.pin.set_output_enable(gpio, true);
        this
    }

    /// Changes the configuration.
    pub fn apply_config(&mut self, gpio: &mut GpioRegs, io_mux: &mut IoMuxRegs, config: &OutputConfig)
        requires
            old(self).pin.pin.wf(),
            old(gpio).wf(),
            old(io_mux).wf(),
        ensures
            *final(self) == *old(self),
            final(gpio).wf(),
            final(io_mux).wf(),
            final(io_mux).gpio@ == old(io_mux).gpio@.update(old(self).pin.pin.num() as int,
                pad_for_output(old(io_mux).gpio@[old(self).pin.pin.num() as int], *config)),
            final(gpio).pin@ == old(gpio).pin@.update(old(self).pin.pin.num() as int,
                with_bit(old(gpio).pin@[old(self).pin.pin.num() as int], PIN_PAD_DRIVER, config.drive_mode == DriveMode::OpenDrain)),
            final(gpio).out == old(gpio).out,
            final(gpio).enable_log@ == old(gpio).enable_log@,
            final(gpio).enable == old(gpio).enable,
            final(gpio).func_in_sel_cfg == old(gpio).func_in_sel_cfg,
            final(gpio).func_out_sel_cfg == old(gpio).func_out_sel_cfg,
    {
        self.pin.apply_output_config(gpio, io_mux, config);
    }

    /// Sets the output level.
    pub fn set_level(&mut self, gpio: &mut GpioRegs, level: Level)
        requires
            old(self).pin.pin.wf(),
        ensures
            *final(self) == *old(self),
            final(gpio).out == if level.is_high() { old(gpio).out | old(self).pin.pin.spec_mask() } else { old(gpio).out & !old(self).pin.pin.spec_mask() },
            final(gpio).enable_log@ == old(gpio).enable_log@,
            final(gpio).enable == old(gpio).enable,
            final(gpio).pin == old(gpio).pin,
            final(gpio).func_in_sel_cfg == old(gpio).func_in_sel_cfg,
            final(gpio).func_out_sel_cfg == old(gpio).func_out_sel_cfg,
    {
        self.pin.set_level(gpio, level);
    }
}

} // verus!
