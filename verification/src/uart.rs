//! Universal asynchronous receiver/transmitter (UART).
//!
//! The driver works on [`UartRegs`], the UART's registers; [`Info`] pairs them
//! with the instance's GPIO matrix signals.
use vstd::prelude::*;
use crate::bits::{bit, bit_of, field, field_of, set_bit, set_field, with_bit, with_field};
use crate::gpio::{self, GpioRegs, IoMuxRegs, InputConfig, OutputConfig, PinGuard, Pull};
use crate::gpio::interconnect::{self, PeripheralSignal};
use crate::system::{guard_started, switched, Peripheral, PeripheralClockControl, PeripheralGuard, SystemRegs};
use crate::interrupt::{disable, enable, routed_and_enabled, InterruptCoreRegs, Priority};

verus! {

/// The size of each FIFO in bytes.
pub const UART_FIFO_SIZE: u16 = 128;
/// The highest RX FIFO full threshold.
pub const RX_FIFO_MAX_THRHD: u16 = 127;
/// The highest TX FIFO empty threshold.
pub const TX_FIFO_MAX_THRHD: u16 = 127;
/// The highest receive timeout, in bit times.
pub const RX_TOUT_MAX_THRHD: u16 = 0x3ff;
/// The highest supported baud rate.
pub const MAX_BAUDRATE: u32 = 5_000_000;
/// The frequency of the RC_FAST clock in Hz.
pub const RC_FAST_CLK_HZ: u32 = 17_500_000;
/// The largest divider of the UART clock before the baud rate divider.
pub const MAX_DIV: u32 = 0b1111_1111_1111 - 1;

// Interrupt bits of INT_RAW / INT_ENA / INT_CLR.
pub const INT_RXFIFO_FULL: u32 = 0;
pub const INT_TXFIFO_EMPTY: u32 = 1;
pub const INT_PARITY_ERR: u32 = 2;
pub const INT_FRM_ERR: u32 = 3;
pub const INT_RXFIFO_OVF: u32 = 4;
pub const INT_RXFIFO_TOUT: u32 = 8;
pub const INT_GLITCH_DET: u32 = 11;
pub const INT_TX_BRK_DONE: u32 = 12;
pub const INT_TX_BRK_IDLE_DONE: u32 = 13;
pub const INT_TX_DONE: u32 = 14;
pub const INT_AT_CMD_CHAR_DET: u32 = 18;

// CONF0 fields.
pub const CONF0_PARITY: u32 = 0;
pub const CONF0_PARITY_EN: u32 = 1;
pub const CONF0_BIT_NUM_LSB: u32 = 2;
pub const CONF0_STOP_BIT_NUM_LSB: u32 = 4;
pub const CONF0_RXFIFO_RST: u32 = 17;
pub const CONF0_TXFIFO_RST: u32 = 18;
pub const CONF0_ERR_WR_MASK: u32 = 26;

// CONF1 fields.
pub const CONF1_RXFIFO_FULL_THRHD_LSB: u32 = 0;
pub const CONF1_TXFIFO_EMPTY_THRHD_LSB: u32 = 9;
pub const CONF1_RX_TOUT_EN: u32 = 21;

// CLK_CONF fields.
pub const CLK_CONF_SCLK_DIV_B_LSB: u32 = 0;
pub const CLK_CONF_SCLK_DIV_A_LSB: u32 = 6;
pub const CLK_CONF_SCLK_DIV_NUM_LSB: u32 = 12;
pub const CLK_CONF_SCLK_SEL_LSB: u32 = 20;
pub const CLK_CONF_SCLK_EN: u32 = 22;
/// Reset value of CLK_CONF.
pub const CLK_CONF_RESET: u32 = 0x0370_1000;

// CLKDIV fields.
pub const CLKDIV_INT_LSB: u32 = 0;
pub const CLKDIV_FRAG_LSB: u32 = 20;
/// Reset value of CLKDIV.
pub const CLKDIV_RESET: u32 = 0x2b6;

// Other fields.
pub const MEM_CONF_RX_TOUT_THRHD_LSB: u32 = 17;
pub const IDLE_CONF_TX_IDLE_NUM_LSB: u32 = 10;
pub const FSM_STATUS_ST_UTX_OUT_LSB: u32 = 4;
pub const AT_CMD_CHAR_CHAR_NUM_LSB: u32 = 8;
pub const ID_REG_UPDATE: u32 = 31;

/// The registers of a UART.
pub struct UartRegs {
    /// Raw interrupt status; INT_CLR writes clear bits of it.
    pub int_raw: u32,
    pub int_ena: u32,
    pub clkdiv: u32,
    pub conf0: u32,
    pub conf1: u32,
    pub clk_conf: u32,
    pub mem_conf: u32,
    pub idle_conf: u32,
    pub fsm_status: u32,
    pub at_cmd_precnt: u32,
    pub at_cmd_postcnt: u32,
    pub at_cmd_gaptout: u32,
    pub at_cmd_char: u32,
    /// Holds the `REG_UPDATE` bit, which reads back as clear once the core
    /// clock domain has taken over the new settings.
    pub id: u32,
    /// The bytes in the TX FIFO, the next one to send first.
    pub tx_fifo: Vec<u8>,
    /// The bytes in the RX FIFO, the oldest first.
    pub rx_fifo: Vec<u8>,
}

impl UartRegs {
    pub open spec fn wf(&self) -> bool {
        &&& self.tx_fifo@.len() <= UART_FIFO_SIZE
        &&& self.rx_fifo@.len() <= UART_FIFO_SIZE
    }
}

/// Synchronizes the register settings into the UART core clock domain:
/// sets `REG_UPDATE` and waits for the hardware to clear it.
pub fn sync_regs(regs: &mut UartRegs)
    ensures
        *final(regs) == (UartRegs { id: with_bit(old(regs).id, ID_REG_UPDATE, false), ..*old(regs) }),
{
    regs.id = set_bit(regs.id, ID_REG_UPDATE, true);
    // the hardware clears the bit once the settings are synchronized
    regs.id = set_bit(regs.id, ID_REG_UPDATE, false);
    proof {
        let w = old(regs).id;
        assert((w | (1u32 << 31u32)) & !(1u32 << 31u32) == w & !(1u32 << 31u32)) by (bit_vector);
    }
}

/// UART RX error.
#[derive(Debug, Clone, Copy, PartialEq, Eq, Structural)]
pub enum RxError {
    /// The RX FIFO overflowed.
    FifoOverflowed,
    /// A glitch was detected on the RX line.
    GlitchOccurred,
    /// A framing error was detected on the RX line.
    FrameFormatViolated,
    /// A parity error was detected on the RX line.
    ParityMismatch,
}

/// UART TX error. No transmission fails: the driver never makes one, and
/// its private field keeps code outside the driver from making one.
#[derive(Debug, Clone, Copy, PartialEq, Eq)]
pub struct TxError {
    never: (),
}

/// UART clock source.
#[derive(Debug, Clone, Copy, PartialEq, Eq, Hash, Structural)]
pub enum ClockSource {
    /// APB_CLK clock source
    Apb,
    /// RC_FAST_CLK clock source (17.5 MHz)
    RcFast,
}

/// Number of data bits.
#[derive(Debug, Clone, Copy, PartialEq, Eq, Structural)]
pub enum DataBits {
    _5,
    _6,
    _7,
    _8,
}

impl DataBits {
    /// The `BIT_NUM` code of this setting.
    pub open spec fn code(self) -> u32 {
        match self {
            DataBits::_5 => 0,
            DataBits::_6 => 1,
            DataBits::_7 => 2,
            DataBits::_8 => 3,
        }
    }

    fn bits(self) -> (r: u32)
        ensures
            r == self.code(),
    {
        match self {
            DataBits::_5 => 0,
            DataBits::_6 => 1,
            DataBits::_7 => 2,
            DataBits::_8 => 3,
        }
    }
}

/// Parity check.
#[derive(Debug, Clone, Copy, PartialEq, Eq, Structural)]
pub enum Parity {
    /// No parity bit is used.
    NoParity,
    /// Even parity.
    Even,
    /// Odd parity.
    Odd,
}

/// Number of stop bits.
#[derive(Debug, Clone, Copy, PartialEq, Eq, Structural)]
pub enum StopBits {
    _1,
    _1p5,
    _2,
}

impl StopBits {
    /// The `STOP_BIT_NUM` code of this setting.
    pub open spec fn code(self) -> u32 {
        match self {
            StopBits::_1 => 1,
            StopBits::_1p5 => 2,
            StopBits::_2 => 3,
        }
    }

    fn bits(self) -> (r: u32)
        ensures
            r == self.code(),
    {
        match self {
            StopBits::_1 => 1,
            StopBits::_1p5 => 2,
            StopBits::_2 => 3,
        }
    }
}

/// A configuration error.
#[derive(Debug, Clone, Copy, PartialEq, Eq, Structural)]
pub enum ConfigError {
    /// The requested baud rate is not achievable.
    UnachievableBaudrate,
    /// The baud rate is zero or exceeds 5 MBaud.
    UnsupportedBaudrate,
    /// The requested timeout exceeds the maximum value of 1023.
    UnsupportedTimeout,
    /// The RX FIFO threshold exceeds 127 bytes.
    UnsupportedRxFifoThreshold,
    /// The TX FIFO threshold exceeds 127 bytes.
    UnsupportedTxFifoThreshold,
}

/// UART receive configuration.
#[derive(Debug, Clone, Copy, PartialEq, Eq, Structural)]
pub struct RxConfig {
    /// Threshold level at which the RX FIFO is considered full.
    pub fifo_full_threshold: u16,
    /// Optional timeout for RX operations, in symbols.
    pub timeout: Option<u8>,
}

impl RxConfig {
    /// 120 bytes, and a timeout of 10 symbols.
    pub fn default() -> (c: Self)
        ensures
            c.fifo_full_threshold == 120,
            c.timeout == Some(10u8),
    {
        RxConfig { fifo_full_threshold: 120, timeout: Some(10) }
    }
}

/// UART transmit configuration.
#[derive(Debug, Clone, Copy, PartialEq, Eq, Structural)]
pub struct TxConfig {
    /// Threshold level at which the TX FIFO is considered empty.
    pub fifo_empty_threshold: u16,
}

impl TxConfig {
    /// 10 bytes.
    pub fn default() -> (c: Self)
        ensures
            c.fifo_empty_threshold == 10,
    {
        TxConfig { fifo_empty_threshold: 10 }
    }
}

/// UART configuration.
#[derive(Debug, Clone, Copy, PartialEq, Eq, Structural)]
pub struct Config {
    /// The baud rate in bits per second.
    pub baudrate: u32,
    pub data_bits: DataBits,
    pub parity: Parity,
    pub stop_bits: StopBits,
    pub clock_source: ClockSource,
    pub rx: RxConfig,
    pub tx: TxConfig,
}

impl Config {
    /// 115200 baud, 8 data bits, no parity, 1 stop bit, the APB clock.
    pub fn default() -> (c: Self)
        ensures
            c.baudrate == 115_200,
            c.data_bits == DataBits::_8,
            c.parity == Parity::NoParity,
            c.stop_bits == StopBits::_1,
            c.clock_source == ClockSource::Apb,
            c.rx.fifo_full_threshold == 120,
            c.rx.timeout == Some(10u8),
            c.tx.fifo_empty_threshold == 10,
    {
        Config {
            rx: RxConfig::default(),
            tx: TxConfig::default(),
            baudrate: 115_200,
            data_bits: DataBits::_8,
            parity: Parity::NoParity,
            stop_bits: StopBits::_1,
            clock_source: ClockSource::Apb,
        }
    }

    /// Checks the baud rate: it must be at least 1 and at most 5 MBaud.
    pub fn validate(&self) -> (r: Result<(), ConfigError>)
        ensures
            r == if self.baudrate == 0 || self.baudrate > MAX_BAUDRATE {
                Err::<(), ConfigError>(ConfigError::UnsupportedBaudrate)
            } else {
                Ok(())
            },
    {
        if self.baudrate == 0 || self.baudrate > MAX_BAUDRATE {
            return Err(ConfigError::UnsupportedBaudrate);
        }
        Ok(())
    }

    /// This configuration with the given baud rate.
    pub fn with_baudrate(self, baudrate: u32) -> (c: Self)
        ensures
            c == (Config { baudrate, ..self }),
    {
        Config { baudrate, ..self }
    }
}

/// Configuration of AT-CMD detection.
#[derive(Clone, Copy, PartialEq, Eq, Hash, Debug, Structural)]
pub struct AtCmdConfig {
    /// Idle time before the AT command, in bit times.
    pub pre_idle_count: Option<u16>,
    /// Idle time after the AT command, in bit times.
    pub post_idle_count: Option<u16>,
    /// Timeout between the bytes of the AT command, in bit times.
    pub gap_timeout: Option<u16>,
    /// The byte that makes up the AT command.
    pub cmd_char: u8,
    /// How many of them make up the AT command.
    pub char_num: u8,
}

impl AtCmdConfig {
    /// `+` once, with no idle time before and after and the hardware's gap
    /// timeout.
    pub fn default() -> (c: Self)
        ensures
            c.pre_idle_count == Some(0u16),
            c.post_idle_count == Some(0u16),
            c.gap_timeout == None::<u16>,
            c.cmd_char == 0x2b,
            c.char_num == 1,
    {
        AtCmdConfig { pre_idle_count: Some(0), post_idle_count: Some(0), gap_timeout: None, cmd_char: 0x2b, char_num: 1 }
    }

    /// This configuration with the given command byte.
    pub fn with_cmd_char(self, cmd_char: u8) -> (c: Self)
        ensures
            c == (AtCmdConfig { cmd_char, ..self }),
    {
        AtCmdConfig { cmd_char, ..self }
    }
}

/// A set of RX events.
#[derive(Debug, Clone, Copy, PartialEq, Eq, Structural)]
pub struct RxEvents {
    pub fifo_full: bool,
    pub cmd_char_detected: bool,
    pub fifo_ovf: bool,
    pub fifo_tout: bool,
    pub glitch_detected: bool,
    pub frame_error: bool,
    pub parity_error: bool,
}

/// The interrupt bit of one event, or nothing.
pub open spec fn bit_if(on: bool, n: u32) -> u32 {
    if on { 1u32 << n } else { 0u32 }
}

fn bit_when(on: bool, n: u32) -> (r: u32)
    requires
        n < 32,
    ensures
        r == bit_if(on, n),
{
    if on { 1u32 << n } else { 0u32 }
}

impl RxEvents {
    /// The empty set.
    pub fn empty() -> (r: Self)
        ensures
            r.is_empty_set(),
    {
        RxEvents { fifo_full: false, cmd_char_detected: false, fifo_ovf: false, fifo_tout: false,
            glitch_detected: false, frame_error: false, parity_error: false }
    }

    pub open spec fn is_empty_set(self) -> bool {
        !self.fifo_full && !self.cmd_char_detected && !self.fifo_ovf && !self.fifo_tout
            && !self.glitch_detected && !self.frame_error && !self.parity_error
    }

    /// The interrupt bits of the events in the set.
    pub open spec fn mask(self) -> u32 {
        bit_if(self.fifo_full, INT_RXFIFO_FULL) | bit_if(self.cmd_char_detected, INT_AT_CMD_CHAR_DET)
            | bit_if(self.fifo_ovf, INT_RXFIFO_OVF) | bit_if(self.fifo_tout, INT_RXFIFO_TOUT)
            | bit_if(self.glitch_detected, INT_GLITCH_DET) | bit_if(self.frame_error, INT_FRM_ERR)
            | bit_if(self.parity_error, INT_PARITY_ERR)
    }

    /// The events whose raw interrupt bits are set in `raw`.
    pub open spec fn from_raw(raw: u32) -> Self {
        RxEvents {
            fifo_full: bit_of(raw, INT_RXFIFO_FULL),
            cmd_char_detected: bit_of(raw, INT_AT_CMD_CHAR_DET),
            fifo_ovf: bit_of(raw, INT_RXFIFO_OVF),
            fifo_tout: bit_of(raw, INT_RXFIFO_TOUT),
            glitch_detected: bit_of(raw, INT_GLITCH_DET),
            frame_error: bit_of(raw, INT_FRM_ERR),
            parity_error: bit_of(raw, INT_PARITY_ERR),
        }
    }

    /// The events in both sets.
    pub fn intersection(self, other: Self) -> (r: Self)
        ensures
            r == (RxEvents {
                fifo_full: self.fifo_full && other.fifo_full,
                cmd_char_detected: self.cmd_char_detected && other.cmd_char_detected,
                fifo_ovf: self.fifo_ovf && other.fifo_ovf,
                fifo_tout: self.fifo_tout && other.fifo_tout,
                glitch_detected: self.glitch_detected && other.glitch_detected,
                frame_error: self.frame_error && other.frame_error,
                parity_error: self.parity_error && other.parity_error,
            }),
    {
        RxEvents {
            fifo_full: self.fifo_full && other.fifo_full,
            cmd_char_detected: self.cmd_char_detected && other.cmd_char_detected,
            fifo_ovf: self.fifo_ovf && other.fifo_ovf,
            fifo_tout: self.fifo_tout && other.fifo_tout,
            glitch_detected: self.glitch_detected && other.glitch_detected,
            frame_error: self.frame_error && other.frame_error,
            parity_error: self.parity_error && other.parity_error,
        }
    }

    /// Whether the set is empty.
    pub fn is_empty(&self) -> (r: bool)
        ensures
            r == self.is_empty_set(),
    {
        !self.fifo_full && !self.cmd_char_detected && !self.fifo_ovf && !self.fifo_tout
            && !self.glitch_detected && !self.frame_error && !self.parity_error
    }

    fn bits(self) -> (r: u32)
        ensures
            r == self.mask(),
    {
        bit_when(self.fifo_full, INT_RXFIFO_FULL) | bit_when(self.cmd_char_detected, INT_AT_CMD_CHAR_DET)
            | bit_when(self.fifo_ovf, INT_RXFIFO_OVF) | bit_when(self.fifo_tout, INT_RXFIFO_TOUT)
            | bit_when(self.glitch_detected, INT_GLITCH_DET) | bit_when(self.frame_error, INT_FRM_ERR)
            | bit_when(self.parity_error, INT_PARITY_ERR)
    }
}

/// The RX events that report errors, and the receive timeout.
pub open spec fn rx_error_events() -> RxEvents {
    RxEvents { fifo_full: false, cmd_char_detected: false, fifo_ovf: true, fifo_tout: true,
        glitch_detected: true, frame_error: true, parity_error: true }
}

/// A set of TX events.
#[derive(Debug, Clone, Copy, PartialEq, Eq, Structural)]
pub struct TxEvents {
    /// The transmitter has sent out all data in the FIFO.
    pub done: bool,
    /// The TX FIFO holds less than its empty threshold.
    pub fifo_empty: bool,
}

impl TxEvents {
    pub open spec fn is_empty_set(self) -> bool {
        !self.done && !self.fifo_empty
    }

    /// The events in both sets.
    pub fn intersection(self, other: Self) -> (r: Self)
        ensures
            r == (TxEvents { done: self.done && other.done, fifo_empty: self.fifo_empty && other.fifo_empty }),
    {
        TxEvents { done: self.done && other.done, fifo_empty: self.fifo_empty && other.fifo_empty }
    }

    /// Whether the set is empty.
    pub fn is_empty(&self) -> (r: bool)
        ensures
            r == self.is_empty_set(),
    {
        !self.done && !self.fifo_empty
    }

    pub open spec fn mask(self) -> u32 {
        bit_if(self.done, INT_TX_DONE) | bit_if(self.fifo_empty, INT_TXFIFO_EMPTY)
    }

    pub open spec fn from_raw(raw: u32) -> Self {
        TxEvents { done: bit_of(raw, INT_TX_DONE), fifo_empty: bit_of(raw, INT_TXFIFO_EMPTY) }
    }

    fn bits(self) -> (r: u32)
        ensures
            r == self.mask(),
    {
        bit_when(self.done, INT_TX_DONE) | bit_when(self.fifo_empty, INT_TXFIFO_EMPTY)
    }
}

/// A set of the UART interrupts a user can listen for.
#[derive(Debug, Clone, Copy, PartialEq, Eq, Structural)]
pub struct UartInterrupts {
    /// The configured AT command byte was detected.
    pub at_cmd: bool,
    /// The transmitter has sent out all data from the FIFO.
    pub tx_done: bool,
    /// The receiver has more data than the RX FIFO full threshold.
    pub rx_fifo_full: bool,
    /// The receiver has seen no data for the RX timeout.
    pub rx_timeout: bool,
}

impl UartInterrupts {
    /// Every interrupt.
    pub fn all() -> (r: Self)
        ensures
            r.at_cmd && r.tx_done && r.rx_fifo_full && r.rx_timeout,
    {
        UartInterrupts { at_cmd: true, tx_done: true, rx_fifo_full: true, rx_timeout: true }
    }

    pub open spec fn mask(self) -> u32 {
        bit_if(self.at_cmd, INT_AT_CMD_CHAR_DET) | bit_if(self.tx_done, INT_TX_DONE)
            | bit_if(self.rx_fifo_full, INT_RXFIFO_FULL) | bit_if(self.rx_timeout, INT_RXFIFO_TOUT)
    }

    fn bits(self) -> (r: u32)
        ensures
            r == self.mask(),
    {
        bit_when(self.at_cmd, INT_AT_CMD_CHAR_DET) | bit_when(self.tx_done, INT_TX_DONE)
            | bit_when(self.rx_fifo_full, INT_RXFIFO_FULL) | bit_when(self.rx_timeout, INT_RXFIFO_TOUT)
    }
}

/// The UART interrupts a user can listen for.
#[derive(Debug, Clone, Copy, PartialEq, Eq, Structural)]
pub enum UartInterrupt {
    /// The receiver detected the configured AT command byte.
    AtCmd,
    /// The transmitter has finished sending out all data from the FIFO.
    TxDone,
    /// The receiver has more data than the RX FIFO full threshold.
    RxFifoFull,
    /// The receiver has seen no data for the RX timeout.
    RxTimeout,
}

/// The first error among `events`: an overflow before a glitch before a
/// framing error before a parity error.
pub open spec fn rx_error_of(events: RxEvents) -> Result<(), RxError> {
    if events.fifo_ovf {
        Err(RxError::FifoOverflowed)
    } else if events.glitch_detected {
        Err(RxError::GlitchOccurred)
    } else if events.frame_error {
        Err(RxError::FrameFormatViolated)
    } else if events.parity_error {
        Err(RxError::ParityMismatch)
    } else {
        Ok(())
    }
}

/// Checks the events for an error, taking them in the order in which they
/// are declared; a full FIFO, a detected AT command and a timeout are none.
pub fn rx_event_check_for_error(events: RxEvents) -> (r: Result<(), RxError>)
    ensures
        r == rx_error_of(events),
{
    let mut i: u8 = 0;
    while i < 7
        invariant
            i <= 7,
            i > 2 ==> !events.fifo_ovf,
            i > 4 ==> !events.glitch_detected,
            i > 5 ==> !events.frame_error,
            i > 6 ==> !events.parity_error,
        decreases 7 - i,
    {
        match i {
            2 => if events.fifo_ovf { return Err(RxError::FifoOverflowed); },
            4 => if events.glitch_detected { return Err(RxError::GlitchOccurred); },
            5 => if events.frame_error { return Err(RxError::FrameFormatViolated); },
            6 => if events.parity_error { return Err(RxError::ParityMismatch); },
            _ => {},
        }
        i = i + 1;
    }
    Ok(())
}

/// `x` divided by `y`, rounded up.
pub fn div_ceil_u32(x: u32, y: u32) -> (r: u32)
    requires
        y > 0,
    ensures
        r == div_ceil(x as int, y as int),
{
    let q = x / y;
    proof {
        assert(x % y != 0 ==> q < 0xffff_ffffu32) by (nonlinear_arith)
            requires y > 0, q == x as int / y as int, x <= 0xffff_ffffu32;
    }
    let r = if x % y != 0 { q + 1 } else { q };
    proof {
        assert(r == (x as int + y as int - 1) / (y as int)) by (nonlinear_arith)
            requires
                y > 0,
                q == x as int / y as int,
                r == if x as int % y as int != 0 { q + 1 } else { q as int };
    }
    r
}

/// The product of the baud rate and its pre-divider stays close to the
/// pre-divided clock.
proof fn lemma_baud_product(pre: u32, baudrate: u32)
    requires
        0 < baudrate,
    ensures
        baudrate * div_ceil(pre as int, baudrate as int) <= pre + baudrate - 1,
        div_ceil(pre as int, baudrate as int) >= 0,
        pre > 0 ==> div_ceil(pre as int, baudrate as int) >= 1,
{
    let q = (pre as int + baudrate as int - 1) / (baudrate as int);
    assert(baudrate * q <= pre + baudrate - 1 && q >= 0 && (pre > 0 ==> q >= 1)) by (nonlinear_arith)
        requires
            baudrate > 0,
            q == (pre as int + baudrate as int - 1) / (baudrate as int);
}

/// Peripheral data describing a UART instance: its registers and its GPIO
/// matrix signals.
pub struct Info {
    pub regs: UartRegs,
    /// The peripheral interrupt of this instance.
    pub interrupt: u8,
    /// The TX output signal.
    pub tx_signal: gpio::OutputSignal,
    /// The RX input signal.
    pub rx_signal: gpio::InputSignal,
}

/// The bit length of one UART frame, as the receive timeout counts it.
pub open spec fn symbol_length(conf0: u32) -> int {
    let data_bits = field_of(conf0, CONF0_BIT_NUM_LSB, 2) + 5;
    let parity: int = if bit_of(conf0, CONF0_PARITY_EN) { 1 } else { 0 };
    let stop_bits: int = if field_of(conf0, CONF0_STOP_BIT_NUM_LSB, 2) == 1 { 1 } else { 2 };
    1 + data_bits + parity + stop_bits
}

/// `x` divided by `y`, rounded up.
pub open spec fn div_ceil(x: int, y: int) -> int {
    (x + y - 1) / y
}

/// The UART clock frequency of a clock source.
pub open spec fn source_clock(source: ClockSource, apb_clock_hz: u32) -> u32 {
    match source {
        ClockSource::Apb => apb_clock_hz,
        ClockSource::RcFast => RC_FAST_CLK_HZ,
    }
}

/// The divider of the UART clock before the baud rate divider.
pub open spec fn baud_clk_div(clk: u32, baudrate: u32) -> int {
    div_ceil(div_ceil(clk as int, MAX_DIV as int), baudrate as int)
}

/// The baud rate divider, in sixteenths.
pub open spec fn baud_divider(clk: u32, baudrate: u32) -> u32 {
    (((clk << 4u32) as u32) as int / (baudrate as int * baud_clk_div(clk, baudrate))) as u32
}

/// What a baud rate change needs of its inputs: a clock the divider can
/// reduce to, and a divider whose low byte is not zero.
pub open spec fn baud_supported(clk: u32, baudrate: u32) -> bool {
    &&& 0 < baudrate <= MAX_BAUDRATE
    &&& clk > 0
    &&& baud_clk_div(clk, baudrate) % 256 != 0
}

/// The `CLK_CONF` word of a baud rate change.
pub open spec fn baud_clk_conf(source: ClockSource, clk_div: int) -> u32 {
    let sel: u32 = match source { ClockSource::Apb => 1, ClockSource::RcFast => 2 };
    with_field(with_field(with_field(with_field(CLK_CONF_RESET, CLK_CONF_SCLK_SEL_LSB, 2, sel),
        CLK_CONF_SCLK_DIV_A_LSB, 6, 0), CLK_CONF_SCLK_DIV_B_LSB, 6, 0),
        CLK_CONF_SCLK_DIV_NUM_LSB, 8, (((clk_div % 256) - 1) as u8) as u32)
}

/// The `CLKDIV` word of a baud rate divider.
pub open spec fn baud_clkdiv(divider: u32) -> u32 {
    with_field(with_field(CLKDIV_RESET, CLKDIV_INT_LSB, 12, divider >> 4u32), CLKDIV_FRAG_LSB, 4, divider % 16)
}

/// The `CLKDIV` fields of a divider that fits in sixteen bits read back as
/// that divider: its integer part times sixteen plus its fraction.
proof fn lemma_clkdiv_fields(q: u32)
    requires
        q < 0x1_0000,
    ensures
        16 * field_of(baud_clkdiv(q), CLKDIV_INT_LSB, 12) + field_of(baud_clkdiv(q), CLKDIV_FRAG_LSB, 4) == q,
{
    crate::bits::lemma_small_masks();
    let w1 = (CLKDIV_RESET & !(0xfffu32 << 0u32)) | (((q >> 4u32) & 0xfffu32) << 0u32);
    let w = (w1 & !(0xfu32 << 20u32)) | (((q % 16) & 0xfu32) << 20u32);
    assert(baud_clkdiv(q) == w);
    let a = (w >> 0u32) & 0xfffu32;
    let b = (w >> 20u32) & 0xfu32;
    assert(a == q >> 4u32 && b == q % 16) by (bit_vector)
        requires
            q < 0x1_0000u32,
            w1 == (0x2b6u32 & !(0xfffu32 << 0u32)) | (((q >> 4u32) & 0xfffu32) << 0u32),
            w == (w1 & !(0xfu32 << 20u32)) | (((q % 16) & 0xfu32) << 20u32),
            a == (w >> 0u32) & 0xfffu32,
            b == (w >> 20u32) & 0xfu32;
    assert(q >> 4u32 == q / 16) by (bit_vector);
}

/// The baud rate that a baud rate change programs is the one asked for, to
/// within one step of the fractional divider: the UART clock `clk`, divided
/// by the pre-divider that `CLK_CONF` holds (its field plus one) and by the
/// divider in sixteenths that `CLKDIV` holds, comes to `baudrate`. (For
/// 115200 baud from an 80 MHz clock the divider is 694 and 7/16.)
pub proof fn lemma_baud_rate_programmed(source: ClockSource, clk: u32, baudrate: u32)
    requires
        baud_supported(clk, baudrate),
        clk < 0x1000_0000,
        baud_clk_div(clk, baudrate) < 256,
    ensures
        ({
            let pre = field_of(baud_clk_conf(source, baud_clk_div(clk, baudrate)), CLK_CONF_SCLK_DIV_NUM_LSB, 8) + 1;
            let word = baud_clkdiv(baud_divider(clk, baudrate));
            let d = 16 * field_of(word, CLKDIV_INT_LSB, 12) + field_of(word, CLKDIV_FRAG_LSB, 4);
            &&& pre * baudrate * d <= 16 * clk
            &&& 16 * clk < pre * baudrate * (d + 1)
        }),
{
    let p0 = div_ceil(clk as int, MAX_DIV as int);
    let cd = baud_clk_div(clk, baudrate);
    assert(p0 >= 1 && 4094 * p0 >= clk) by (nonlinear_arith)
        requires p0 == (clk as int + 4093) / 4094, clk >= 1;
    assert(cd >= 1 && baudrate * cd >= p0) by (nonlinear_arith)
        requires cd == (p0 + baudrate - 1) / (baudrate as int), p0 >= 1, baudrate >= 1;
    // the pre-divider field
    let inner = with_field(with_field(with_field(CLK_CONF_RESET, CLK_CONF_SCLK_SEL_LSB, 2,
        match source { ClockSource::Apb => 1u32, ClockSource::RcFast => 2u32 }),
        CLK_CONF_SCLK_DIV_A_LSB, 6, 0), CLK_CONF_SCLK_DIV_B_LSB, 6, 0);
    let num: u32 = (((cd % 256) - 1) as u8) as u32;
    assert(cd % 256 == cd);
    assert(num == cd - 1);
    crate::bits::lemma_small_masks();
    crate::bits::lemma_field_roundtrip(inner, CLK_CONF_SCLK_DIV_NUM_LSB, 8, num);
    assert(baud_clk_conf(source, cd) == with_field(inner, CLK_CONF_SCLK_DIV_NUM_LSB, 8, num));
    // the divider
    assert((clk << 4u32) as int == 16 * clk) by (bit_vector) requires clk < 0x1000_0000u32;
    let y = baudrate as int * cd;
    let q = baud_divider(clk, baudrate);
    assert(q as int == (16 * clk) / y);
    assert((16 * clk) / y <= 16 * 4094) by (nonlinear_arith)
        requires y >= 1, 4094 * y >= clk, clk >= 0;
    assert(y * ((16 * clk) / y) <= 16 * clk && 16 * clk < y * ((16 * clk) / y + 1)) by (nonlinear_arith)
        requires y >= 1, clk >= 0;
    lemma_clkdiv_fields(q);
    assert(cd * baudrate * q == y * q && cd * baudrate * (q + 1) == y * (q + 1)) by (nonlinear_arith)
        requires y == baudrate as int * cd;
}

/// The `CONF0` word after a parity change.
pub open spec fn conf0_with_parity(conf0: u32, parity: Parity) -> u32 {
    match parity {
        Parity::NoParity => with_bit(conf0, CONF0_PARITY_EN, false),
        Parity::Even => with_bit(with_bit(conf0, CONF0_PARITY_EN, true), CONF0_PARITY, false),
        Parity::Odd => with_bit(with_bit(conf0, CONF0_PARITY_EN, true), CONF0_PARITY, true),
    }
}

/// The `CONF0` word after applying a configuration's frame format.
pub open spec fn conf0_with_format(conf0: u32, config: Config) -> u32 {
    with_field(conf0_with_parity(with_field(conf0, CONF0_BIT_NUM_LSB, 2, config.data_bits.code()), config.parity),
        CONF0_STOP_BIT_NUM_LSB, 2, config.stop_bits.code())
}

/// A configuration's frame format in `CONF0`: the data bits field plus five
/// is the number of data bits; the parity bit is enabled exactly when a
/// parity is asked for, and set for odd parity; the stop bits field is 1 for
/// one stop bit, 2 for one and a half and 3 for two. A frame, as the
/// receive timeout counts it, is a start bit, the data bits, the parity bit
/// if any, and one stop bit or two (one and a half counting as two).
pub proof fn lemma_frame_format(conf0: u32, config: Config)
    ensures
        ({
            let w = conf0_with_format(conf0, config);
            let data: int = match config.data_bits { DataBits::_5 => 5, DataBits::_6 => 6, DataBits::_7 => 7, DataBits::_8 => 8 };
            &&& field_of(w, CONF0_BIT_NUM_LSB, 2) + 5 == data
            &&& bit_of(w, CONF0_PARITY_EN) == (config.parity != Parity::NoParity)
            &&& config.parity != Parity::NoParity ==> bit_of(w, CONF0_PARITY) == (config.parity == Parity::Odd)
            &&& field_of(w, CONF0_STOP_BIT_NUM_LSB, 2) == match config.stop_bits {
                StopBits::_1 => 1u32,
                StopBits::_1p5 => 2u32,
                StopBits::_2 => 3u32,
            }
            &&& symbol_length(w) == 1 + data + (if config.parity == Parity::NoParity { 0int } else { 1int })
                + (if config.stop_bits == StopBits::_1 { 1int } else { 2int })
        }),
{
    crate::bits::lemma_small_masks();
    let d = config.data_bits.code();
    let sb = config.stop_bits.code();
    let pe = config.parity != Parity::NoParity;
    let odd = config.parity == Parity::Odd;
    let w1 = (conf0 & !(3u32 << 2u32)) | ((d & 3u32) << 2u32);
    assert(with_field(conf0, CONF0_BIT_NUM_LSB, 2, d) == w1);
    let w2 = if pe {
        if odd { (w1 | (1u32 << 1u32)) | (1u32 << 0u32) } else { (w1 | (1u32 << 1u32)) & !(1u32 << 0u32) }
    } else {
        w1 & !(1u32 << 1u32)
    };
    assert(conf0_with_parity(w1, config.parity) == w2);
    let w = (w2 & !(3u32 << 4u32)) | ((sb & 3u32) << 4u32);
    assert(conf0_with_format(conf0, config) == w);
    assert(d < 4 && 1 <= sb < 4 ==> {
        &&& (w >> 2u32) & 3u32 == d
        &&& ((w >> 1u32) & 1u32 == 1u32) == pe
        &&& pe ==> (((w >> 0u32) & 1u32 == 1u32) == odd)
        &&& (w >> 4u32) & 3u32 == sb
    }) by (bit_vector)
        requires
            w1 == (conf0 & !(3u32 << 2u32)) | ((d & 3u32) << 2u32),
            w2 == if pe {
                if odd { (w1 | (1u32 << 1u32)) | (1u32 << 0u32) } else { (w1 | (1u32 << 1u32)) & !(1u32 << 0u32) }
            } else {
                w1 & !(1u32 << 1u32)
            },
            w == (w2 & !(3u32 << 4u32)) | ((sb & 3u32) << 4u32);
}

/// The registers after the common part of a configuration is applied: the
/// baud rate, the data bits, the parity and the stop bits.
pub open spec fn common_applied(r0: UartRegs, config: Config, apb_clock_hz: u32) -> UartRegs {
    let clk = source_clock(config.clock_source, apb_clock_hz);
    UartRegs {
        clk_conf: baud_clk_conf(config.clock_source, baud_clk_div(clk, config.baudrate)),
        clkdiv: baud_clkdiv(baud_divider(clk, config.baudrate)),
        id: with_bit(r0.id, ID_REG_UPDATE, false),
        conf0: conf0_with_format(r0.conf0, config),
        ..r0
    }
}

/// Whether a configuration's baud rate is refused outright.
pub open spec fn baudrate_refused(config: Config) -> bool {
    config.baudrate == 0 || config.baudrate > MAX_BAUDRATE
}

/// The outcome of applying a configuration to a UART whose registers are
/// `r0`: the common part is checked first, then the RX part (whose timeout
/// counts symbols of the new frame format), then the TX part.
pub open spec fn config_result(r0: UartRegs, config: Config, apb_clock_hz: u32) -> Result<(), ConfigError> {
    if baudrate_refused(config) {
        Err(ConfigError::UnsupportedBaudrate)
    } else {
        match rx_config_error(config, symbol_length(common_applied(r0, config, apb_clock_hz).conf0)) {
            Some(e) => Err(e),
            None => if config.tx.fifo_empty_threshold > TX_FIFO_MAX_THRHD {
                Err(ConfigError::UnsupportedTxFifoThreshold)
            } else {
                Ok(())
            },
        }
    }
}

/// Whether `r3` are the registers `r0` after the whole configuration was
/// applied: the common part, then the RX part, then the TX part.
pub open spec fn configured(r0: UartRegs, r3: UartRegs, config: Config, apb_clock_hz: u32) -> bool {
    exists|r2: UartRegs| rx_config_applied(common_applied(r0, config, apb_clock_hz), r2, config) && tx_config_applied(r2, r3, config)
}

/// Whether `r` are the registers `r0` after a configuration was refused:
/// unchanged when its baud rate is refused; else with the common part
/// applied, and as much of the RX part as came before the refusal.
pub open spec fn refused_config_applied(r0: UartRegs, r: UartRegs, config: Config, apb_clock_hz: u32) -> bool {
    if baudrate_refused(config) {
        r == r0
    } else {
        let r1 = common_applied(r0, config, apb_clock_hz);
        match rx_config_error(config, symbol_length(r1.conf0)) {
            Some(ConfigError::UnsupportedRxFifoThreshold) => r == r1,
            Some(_) => r == (UartRegs {
                conf1: with_field(r1.conf1, CONF1_RXFIFO_FULL_THRHD_LSB, 9, config.rx.fifo_full_threshold as u32),
                ..r1
            }),
            None => rx_config_applied(r1, r, config),
        }
    }
}

/// Whether `r1` are the registers `r0` after both FIFOs were reset.
pub open spec fn fifos_reset(r0: UartRegs, r1: UartRegs) -> bool {
    &&& r1 == (UartRegs {
        conf0: with_bit(with_bit(r0.conf0, CONF0_RXFIFO_RST, false), CONF0_TXFIFO_RST, false),
        id: with_bit(r0.id, ID_REG_UPDATE, false),
        tx_fifo: r1.tx_fifo,
        rx_fifo: r1.rx_fifo,
        ..r0
    })
    &&& r1.tx_fifo@ == Seq::<u8>::empty()
    &&& r1.rx_fifo@ == Seq::<u8>::empty()
}

/// The registers after the last steps of initialisation: no idle time
/// between transmissions, received data with errors not stored, and every
/// interrupt cleared.
pub open spec fn init_finished(r: UartRegs) -> UartRegs {
    UartRegs {
        idle_conf: with_field(r.idle_conf, IDLE_CONF_TX_IDLE_NUM_LSB, 10, 0),
        conf0: with_bit(r.conf0, CONF0_ERR_WR_MASK, true),
        int_raw: 0,
        ..r
    }
}

/// The registers with the RX and TX interrupts cleared and every interrupt
/// disabled.
pub open spec fn interrupts_disabled(r: UartRegs) -> UartRegs {
    UartRegs { int_raw: (r.int_raw & !rx_interrupt_bits()) & !tx_interrupt_bits(), int_ena: 0, ..r }
}

impl Info {
    pub open spec fn wf(&self) -> bool {
        self.regs.wf()
    }

    /// The register block of this instance.
    pub fn regs(&self) -> (r: &UartRegs)
        ensures
            r == &self.regs,
    {
        &self.regs
    }

    /// Enables or disables the given interrupts.
    pub fn enable_listen(&mut self, interrupts: UartInterrupts, enable: bool)
        ensures
            final(self).regs == (UartRegs {
                int_ena: if enable { old(self).regs.int_ena | interrupts.mask() } else { old(self).regs.int_ena & !interrupts.mask() },
                ..old(self).regs
            }),
            final(self).interrupt == old(self).interrupt,
            final(self).tx_signal == old(self).tx_signal,
            final(self).rx_signal == old(self).rx_signal,
    {
        let m = interrupts.bits();
        self.regs.int_ena = if enable { self.regs.int_ena | m } else { self.regs.int_ena & !m };
    }

    /// Clears the given interrupts.
    pub fn clear_interrupts(&mut self, interrupts: UartInterrupts)
        ensures
            final(self).regs == (UartRegs { int_raw: old(self).regs.int_raw & !interrupts.mask(), ..old(self).regs }),
            final(self).interrupt == old(self).interrupt,
            final(self).tx_signal == old(self).tx_signal,
            final(self).rx_signal == old(self).rx_signal,
    {
        let m = interrupts.bits();
        self.regs.int_raw = self.regs.int_raw & !m;
    }

    /// Enables or disables the interrupts of the given TX events.
    pub fn enable_listen_tx(&mut self, events: TxEvents, enable: bool)
        ensures
            final(self).regs == (UartRegs {
                int_ena: if enable { old(self).regs.int_ena | events.mask() } else { old(self).regs.int_ena & !events.mask() },
                ..old(self).regs
            }),
            final(self).interrupt == old(self).interrupt,
            final(self).tx_signal == old(self).tx_signal,
            final(self).rx_signal == old(self).rx_signal,
    {
        let m = events.bits();
        self.regs.int_ena = if enable { self.regs.int_ena | m } else { self.regs.int_ena & !m };
    }

    /// The TX events whose raw interrupt bits are set.
    pub fn tx_events(&self) -> (r: TxEvents)
        ensures
            r == TxEvents::from_raw(self.regs.int_raw),
    {
        let raw = self.regs.int_raw;
        TxEvents { done: bit(raw, INT_TX_DONE), fifo_empty: bit(raw, INT_TXFIFO_EMPTY) }
    }

    /// Clears the raw interrupt bits of the given TX events.
    pub fn clear_tx_events(&mut self, events: TxEvents)
        ensures
            final(self).regs == (UartRegs { int_raw: old(self).regs.int_raw & !events.mask(), ..old(self).regs }),
            final(self).interrupt == old(self).interrupt,
            final(self).tx_signal == old(self).tx_signal,
            final(self).rx_signal == old(self).rx_signal,
    {
        let m = events.bits();
        self.regs.int_raw = self.regs.int_raw & !m;
    }

    /// Enables or disables the interrupts of the given RX events.
    pub fn enable_listen_rx(&mut self, events: RxEvents, enable: bool)
        ensures
            final(self).regs == (UartRegs {
                int_ena: if enable { old(self).regs.int_ena | events.mask() } else { old(self).regs.int_ena & !events.mask() },
                ..old(self).regs
            }),
            final(self).interrupt == old(self).interrupt,
            final(self).tx_signal == old(self).tx_signal,
            final(self).rx_signal == old(self).rx_signal,
    {
        let m = events.bits();
        self.regs.int_ena = if enable { self.regs.int_ena | m } else { self.regs.int_ena & !m };
    }

    /// The RX events whose raw interrupt bits are set.
    pub fn rx_events(&self) -> (r: RxEvents)
        ensures
            r == RxEvents::from_raw(self.regs.int_raw),
    {
        let raw = self.regs.int_raw;
        RxEvents {
            fifo_full: bit(raw, INT_RXFIFO_FULL),
            cmd_char_detected: bit(raw, INT_AT_CMD_CHAR_DET),
            fifo_ovf: bit(raw, INT_RXFIFO_OVF),
            fifo_tout: bit(raw, INT_RXFIFO_TOUT),
            glitch_detected: bit(raw, INT_GLITCH_DET),
            frame_error: bit(raw, INT_FRM_ERR),
            parity_error: bit(raw, INT_PARITY_ERR),
        }
    }

    /// Clears the raw interrupt bits of the given RX events.
    pub fn clear_rx_events(&mut self, events: RxEvents)
        ensures
            final(self).regs == (UartRegs { int_raw: old(self).regs.int_raw & !events.mask(), ..old(self).regs }),
            final(self).interrupt == old(self).interrupt,
            final(self).tx_signal == old(self).tx_signal,
            final(self).rx_signal == old(self).rx_signal,
    {
        let m = events.bits();
        self.regs.int_raw = self.regs.int_raw & !m;
    }

    /// Sets the RX FIFO full threshold; `Err` above 127, with nothing changed.
    pub fn set_rx_fifo_full_threshold(&mut self, threshold: u16) -> (r: Result<(), ConfigError>)
        ensures
            threshold > RX_FIFO_MAX_THRHD ==> r == Err::<(), ConfigError>(ConfigError::UnsupportedRxFifoThreshold)
                && final(self).regs == old(self).regs,
            threshold <= RX_FIFO_MAX_THRHD ==> r is Ok && final(self).regs == (UartRegs {
                conf1: with_field(old(self).regs.conf1, CONF1_RXFIFO_FULL_THRHD_LSB, 9, threshold as u32),
                ..old(self).regs
            }),
            final(self).interrupt == old(self).interrupt,
            final(self).tx_signal == old(self).tx_signal,
            final(self).rx_signal == old(self).rx_signal,
    {
        if threshold > RX_FIFO_MAX_THRHD {
            return Err(ConfigError::UnsupportedRxFifoThreshold);
        }
        self.regs.conf1 = set_field(self.regs.conf1, CONF1_RXFIFO_FULL_THRHD_LSB, 9, threshold as u32);
        Ok(())
    }

    /// The RX FIFO full threshold.
    pub fn rx_fifo_full_threshold(&self) -> (r: u16)
        ensures
            r == field_of(self.regs.conf1, CONF1_RXFIFO_FULL_THRHD_LSB, 9),
    {
        let v = field(self.regs.conf1, CONF1_RXFIFO_FULL_THRHD_LSB, 9);
        proof { crate::bits::lemma_field_bound(self.regs.conf1, CONF1_RXFIFO_FULL_THRHD_LSB, 9); }
        v as u16
    }

    /// Sets the TX FIFO empty threshold; `Err` above 127, with nothing changed.
    pub fn set_tx_fifo_empty_threshold(&mut self, threshold: u16) -> (r: Result<(), ConfigError>)
        ensures
            threshold > TX_FIFO_MAX_THRHD ==> r == Err::<(), ConfigError>(ConfigError::UnsupportedTxFifoThreshold)
                && final(self).regs == old(self).regs,
            threshold <= TX_FIFO_MAX_THRHD ==> r is Ok && final(self).regs == (UartRegs {
                conf1: with_field(old(self).regs.conf1, CONF1_TXFIFO_EMPTY_THRHD_LSB, 9, threshold as u32),
                ..old(self).regs
            }),
            final(self).interrupt == old(self).interrupt,
            final(self).tx_signal == old(self).tx_signal,
            final(self).rx_signal == old(self).rx_signal,
    {
        if threshold > TX_FIFO_MAX_THRHD {
            return Err(ConfigError::UnsupportedTxFifoThreshold);
        }
        self.regs.conf1 = set_field(self.regs.conf1, CONF1_TXFIFO_EMPTY_THRHD_LSB, 9, threshold as u32);
        Ok(())
    }

    /// Sets the receive timeout to `timeout` symbols of `symbol_len` bits, or
    /// turns it off for `None`; `Err` when the product exceeds 1023, with
    /// nothing changed.
    pub fn set_rx_timeout(&mut self, timeout: Option<u8>, symbol_len: u8) -> (r: Result<(), ConfigError>)
        ensures
            final(self).interrupt == old(self).interrupt,
            final(self).tx_signal == old(self).tx_signal,
            final(self).rx_signal == old(self).rx_signal,
            match timeout {
                Some(t) if t * symbol_len > RX_TOUT_MAX_THRHD => {
                    &&& r == Err::<(), ConfigError>(ConfigError::UnsupportedTimeout)
                    &&& final(self).regs == old(self).regs
                },
                _ => {
                    &&& r is Ok
                    &&& final(self).regs == (UartRegs {
                        mem_conf: match timeout {
                            Some(t) => with_field(old(self).regs.mem_conf, MEM_CONF_RX_TOUT_THRHD_LSB, 10, (t * symbol_len) as u32),
                            None => old(self).regs.mem_conf,
                        },
                        conf1: with_bit(old(self).regs.conf1, CONF1_RX_TOUT_EN, timeout is Some),
                        id: with_bit(old(self).regs.id, ID_REG_UPDATE, false),
                        ..old(self).regs
                    })
                },
            },
    {
        if let Some(t) = timeout {
            assert(t as u16 * symbol_len as u16 <= 65025) by (nonlinear_arith)
                requires t <= 255, symbol_len <= 255;
            let timeout_reg = t as u16 * symbol_len as u16;
            if timeout_reg > RX_TOUT_MAX_THRHD {
                return Err(ConfigError::UnsupportedTimeout);
            }
            self.regs.mem_conf = set_field(self.regs.mem_conf, MEM_CONF_RX_TOUT_THRHD_LSB, 10, timeout_reg as u32);
        }
        self.regs.conf1 = set_bit(self.regs.conf1, CONF1_RX_TOUT_EN, timeout.is_some());
        self.sync_regs();
        Ok(())
    }

    /// Synchronizes the registers into the UART core clock domain.
    pub fn sync_regs(&mut self)
        ensures
            final(self).regs == (UartRegs { id: with_bit(old(self).regs.id, ID_REG_UPDATE, false), ..old(self).regs }),
            final(self).interrupt == old(self).interrupt,
            final(self).tx_signal == old(self).tx_signal,
            final(self).rx_signal == old(self).rx_signal,
    {
        sync_regs(&mut self.regs);
    }

    /// Sets the data bits.
    pub fn change_data_bits(&mut self, data_bits: DataBits)
        ensures
            final(self).regs == (UartRegs { conf0: with_field(old(self).regs.conf0, CONF0_BIT_NUM_LSB, 2, data_bits.code()), ..old(self).regs }),
            final(self).interrupt == old(self).interrupt,
            final(self).tx_signal == old(self).tx_signal,
            final(self).rx_signal == old(self).rx_signal,
    {
        self.regs.conf0 = set_field(self.regs.conf0, CONF0_BIT_NUM_LSB, 2, data_bits.bits());
    }

    /// Sets the parity check.
    pub fn change_parity(&mut self, parity: Parity)
        ensures
            final(self).regs == (UartRegs { conf0: conf0_with_parity(old(self).regs.conf0, parity), ..old(self).regs }),
            final(self).interrupt == old(self).interrupt,
            final(self).tx_signal == old(self).tx_signal,
            final(self).rx_signal == old(self).rx_signal,
    {
        self.regs.conf0 = match parity {
            Parity::NoParity => set_bit(self.regs.conf0, CONF0_PARITY_EN, false),
            Parity::Even => set_bit(set_bit(self.regs.conf0, CONF0_PARITY_EN, true), CONF0_PARITY, false),
            Parity::Odd => set_bit(set_bit(self.regs.conf0, CONF0_PARITY_EN, true), CONF0_PARITY, true),
        };
    }

    /// Sets the stop bits.
    pub fn change_stop_bits(&mut self, stop_bits: StopBits)
        ensures
            final(self).regs == (UartRegs { conf0: with_field(old(self).regs.conf0, CONF0_STOP_BIT_NUM_LSB, 2, stop_bits.code()), ..old(self).regs }),
            final(self).interrupt == old(self).interrupt,
            final(self).tx_signal == old(self).tx_signal,
            final(self).rx_signal == old(self).rx_signal,
    {
        self.regs.conf0 = set_field(self.regs.conf0, CONF0_STOP_BIT_NUM_LSB, 2, stop_bits.bits());
    }

    /// Resets the RX FIFO, which empties it.
    pub fn rxfifo_reset(&mut self)
        ensures
            final(self).regs == (UartRegs {
                conf0: with_bit(old(self).regs.conf0, CONF0_RXFIFO_RST, false),
                id: with_bit(old(self).regs.id, ID_REG_UPDATE, false),
                rx_fifo: final(self).regs.rx_fifo,
                ..old(self).regs
            }),
            final(self).regs.rx_fifo@ == Seq::<u8>::empty(),
            final(self).interrupt == old(self).interrupt,
            final(self).tx_signal == old(self).tx_signal,
            final(self).rx_signal == old(self).rx_signal,
    {
        self.regs.conf0 = set_bit(self.regs.conf0, CONF0_RXFIFO_RST, true);
        self.sync_regs();
        // the FIFO is empty while its reset is held
        self.regs.rx_fifo = Vec::new();
        self.regs.conf0 = set_bit(self.regs.conf0, CONF0_RXFIFO_RST, false);
        self.sync_regs();
        proof { crate::bits::lemma_set_then_clear(old(self).regs.conf0, CONF0_RXFIFO_RST); }
        proof { crate::bits::lemma_set_then_clear(old(self).regs.id, ID_REG_UPDATE); }
    }

    /// Resets the TX FIFO, which empties it.
    pub fn txfifo_reset(&mut self)
        ensures
            final(self).regs == (UartRegs {
                conf0: with_bit(old(self).regs.conf0, CONF0_TXFIFO_RST, false),
                id: with_bit(old(self).regs.id, ID_REG_UPDATE, false),
                tx_fifo: final(self).regs.tx_fifo,
                ..old(self).regs
            }),
            final(self).regs.tx_fifo@ == Seq::<u8>::empty(),
            final(self).interrupt == old(self).interrupt,
            final(self).tx_signal == old(self).tx_signal,
            final(self).rx_signal == old(self).rx_signal,
    {
        self.regs.conf0 = set_bit(self.regs.conf0, CONF0_TXFIFO_RST, true);
        self.sync_regs();
        // the FIFO is empty while its reset is held
        self.regs.tx_fifo = Vec::new();
        self.regs.conf0 = set_bit(self.regs.conf0, CONF0_TXFIFO_RST, false);
        self.sync_regs();
        proof { crate::bits::lemma_set_then_clear(old(self).regs.conf0, CONF0_TXFIFO_RST); }
        proof { crate::bits::lemma_set_then_clear(old(self).regs.id, ID_REG_UPDATE); }
    }

    /// The bit length of one frame: a start bit, the data bits, the parity
    /// bit if any, and one stop bit for the one-stop-bit setting, else two.
    pub fn current_symbol_length(&self) -> (r: u8)
        ensures
            r == symbol_length(self.regs.conf0),
    {
        let conf0 = self.regs.conf0;
        proof {
            crate::bits::lemma_field_bound(conf0, CONF0_BIT_NUM_LSB, 2);
            crate::bits::lemma_field_bound(conf0, CONF0_STOP_BIT_NUM_LSB, 2);
            vstd::arithmetic::power2::lemma2_to64();
        }
        let data_bits = field(conf0, CONF0_BIT_NUM_LSB, 2) as u8 + 5;
        let parity: u8 = if bit(conf0, CONF0_PARITY_EN) { 1 } else { 0 };
        let mut stop_bits = field(conf0, CONF0_STOP_BIT_NUM_LSB, 2) as u8;
        proof { crate::bits::lemma_field_bound(conf0, CONF0_STOP_BIT_NUM_LSB, 2); }
        match stop_bits {
            1 => {},
            _ => { stop_bits = 2; },
        }
        1 + data_bits + parity + stop_bits
    }

    /// The number of bytes in the TX FIFO.
    pub fn tx_fifo_count(&self) -> (r: u16)
        requires
            self.wf(),
        ensures
            r == self.regs.tx_fifo@.len(),
    {
        self.regs.tx_fifo.len() as u16
    }

    /// The number of bytes in the RX FIFO.
    pub fn rx_fifo_count(&self) -> (r: u16)
        requires
            self.wf(),
        ensures
            r == self.regs.rx_fifo@.len(),
    {
        self.regs.rx_fifo.len() as u16
    }

    /// Sets the baud rate: selects the clock source, divides it by the
    /// integral pre-divider and programs the fractional baud divider.
    pub fn change_baud(&mut self, config: &Config, apb_clock_hz: u32) -> (r: Result<(), ConfigError>)
        requires
            baud_supported(source_clock(config.clock_source, apb_clock_hz), config.baudrate),
        ensures
            r is Ok,
            ({
                let clk = source_clock(config.clock_source, apb_clock_hz);
                final(self).regs == (UartRegs {
                    clk_conf: baud_clk_conf(config.clock_source, baud_clk_div(clk, config.baudrate)),
                    clkdiv: baud_clkdiv(baud_divider(clk, config.baudrate)),
                    id: with_bit(old(self).regs.id, ID_REG_UPDATE, false),
                    ..old(self).regs
                })
            }),
            final(self).interrupt == old(self).interrupt,
            final(self).tx_signal == old(self).tx_signal,
            final(self).rx_signal == old(self).rx_signal,
    {
        let clk = match config.clock_source {
            ClockSource::Apb => apb_clock_hz,
            ClockSource::RcFast => RC_FAST_CLK_HZ,
        };
        let baudrate = config.baudrate;
        let pre = div_ceil_u32(clk, MAX_DIV);
        let clk_div = div_ceil_u32(pre, baudrate);
        proof {
            lemma_baud_product(pre, baudrate);
            assert(pre <= 0xffff_ffffu32 / 4094 + 1 && pre >= 1) by (nonlinear_arith)
                requires pre == (clk as int + 4093) / 4094, clk <= 0xffff_ffffu32, clk >= 1;
        }
        let sel: u32 = match config.clock_source {
            ClockSource::Apb => 1,
            ClockSource::RcFast => 2,
        };
        let mut conf = CLK_CONF_RESET;
        conf = set_field(conf, CLK_CONF_SCLK_SEL_LSB, 2, sel);
        conf = set_field(conf, CLK_CONF_SCLK_DIV_A_LSB, 6, 0);
        conf = set_field(conf, CLK_CONF_SCLK_DIV_B_LSB, 6, 0);
        conf = set_field(conf, CLK_CONF_SCLK_DIV_NUM_LSB, 8, ((clk_div % 256) as u8 - 1) as u32);
        self.regs.clk_conf = conf;
        proof {
            assert(baudrate * clk_div >= 1) by (nonlinear_arith)
                requires baudrate >= 1, clk_div >= 1;
        }
        let divider = (clk << 4u32) / (baudrate * clk_div);
        let divider_integer = divider >> 4u32;
        let divider_frag = divider % 16;
        let mut clkdiv = CLKDIV_RESET;
        clkdiv = set_field(clkdiv, CLKDIV_INT_LSB, 12, divider_integer);
        clkdiv = set_field(clkdiv, CLKDIV_FRAG_LSB, 4, divider_frag);
        self.regs.clkdiv = clkdiv;
        self.sync_regs();
        Ok(())
    }

    /// Applies the common part of a configuration: checks the baud rate,
    /// then sets it, the data bits, the parity and the stop bits.
    pub fn apply_config(&mut self, config: &Config, apb_clock_hz: u32) -> (r: Result<(), ConfigError>)
        requires
            config.baudrate == 0 || config.baudrate > MAX_BAUDRATE
                || baud_supported(source_clock(config.clock_source, apb_clock_hz), config.baudrate),
        ensures
            config.baudrate == 0 || config.baudrate > MAX_BAUDRATE ==>
                r == Err::<(), ConfigError>(ConfigError::UnsupportedBaudrate) && final(self).regs == old(self).regs,
            !(config.baudrate == 0 || config.baudrate > MAX_BAUDRATE) ==> r is Ok
                && final(self).regs == common_applied(old(self).regs, *config, apb_clock_hz),
            final(self).interrupt == old(self).interrupt,
            final(self).tx_signal == old(self).tx_signal,
            final(self).rx_signal == old(self).rx_signal,
    {
        config.validate()?;
        self.change_baud(config, apb_clock_hz)?;
        self.change_data_bits(config.data_bits);
        self.change_parity(config.parity);
        self.change_stop_bits(config.stop_bits);
        Ok(())
    }

    /// Checks the raw interrupt bits for a receive error. On one, clears the
    /// raw bits of every error event (the timeout's too), and resets the RX
    /// FIFO if it overflowed.
    pub fn check_for_errors(&mut self) -> (r: Result<(), RxError>)
        ensures
            r == rx_error_of(RxEvents::from_raw(old(self).regs.int_raw)),
            r is Ok ==> final(self).regs == old(self).regs,
            r is Err ==> errors_cleared(old(self).regs, final(self).regs),
            final(self).interrupt == old(self).interrupt,
            final(self).tx_signal == old(self).tx_signal,
            final(self).rx_signal == old(self).rx_signal,
    {
        let errors = RxEvents { fifo_full: false, cmd_char_detected: false, fifo_ovf: true, fifo_tout: true,
            glitch_detected: true, frame_error: true, parity_error: true };
        let events = self.rx_events().intersection(errors);
        let result = rx_event_check_for_error(events);
        if result.is_err() {
            self.clear_rx_events(errors);
            if events.fifo_ovf {
                self.rxfifo_reset();
            }
        }
        result
    }

    /// Writes as many bytes of `data` as the TX FIFO has room for, and
    /// returns how many.
    pub fn write(&mut self, data: &[u8]) -> (r: Result<usize, TxError>)
        requires
            old(self).wf(),
            data@.len() == 0 || old(self).regs.tx_fifo@.len() < UART_FIFO_SIZE,
        ensures
            final(self).wf(),
            ({
                let n = if data@.len() == 0 { 0 } else { vstd::math::min(UART_FIFO_SIZE - old(self).regs.tx_fifo@.len(), data@.len() as int) };
                &&& r == Ok::<usize, TxError>(n as usize)
                &&& final(self).regs.tx_fifo@ == old(self).regs.tx_fifo@ + data@.subrange(0, n)
            }),
            final(self).regs == (UartRegs { tx_fifo: final(self).regs.tx_fifo, ..old(self).regs }),
            final(self).interrupt == old(self).interrupt,
            final(self).tx_signal == old(self).tx_signal,
            final(self).rx_signal == old(self).rx_signal,
    {
        if data.len() == 0 {
            assert(data@.subrange(0, 0) =~= Seq::<u8>::empty());
            assert(old(self).regs.tx_fifo@ + Seq::<u8>::empty() =~= old(self).regs.tx_fifo@);
            return Ok(0);
        }
        let space = (UART_FIFO_SIZE - self.tx_fifo_count()) as usize;
        let to_write = if space < data.len() { space } else { data.len() };
        let mut i: usize = 0;
        while i < to_write
            invariant
                self.wf(),
                i <= to_write,
                to_write <= data@.len(),
                old(self).regs.tx_fifo@.len() + to_write <= UART_FIFO_SIZE,
                self.regs.tx_fifo@ == old(self).regs.tx_fifo@ + data@.subrange(0, i as int),
                self.regs == (UartRegs { tx_fifo: self.regs.tx_fifo, ..old(self).regs }),
                self.interrupt == old(self).interrupt,
                self.tx_signal == old(self).tx_signal,
                self.rx_signal == old(self).rx_signal,
            decreases to_write - i,
        {
            self.write_byte(data[i]);
            assert(data@.subrange(0, i + 1) =~= data@.subrange(0, i as int).push(data@[i as int]));
            i = i + 1;
        }
        Ok(to_write)
    }

    /// Reads the bytes already received, as many as `buf` holds, unless the
    /// raw interrupt bits report a receive error.
    pub fn read_buffered(&mut self, buf: &mut [u8]) -> (r: Result<usize, RxError>)
        requires
            old(self).wf(),
        ensures
            final(self).wf(),
            final(self).interrupt == old(self).interrupt,
            final(self).tx_signal == old(self).tx_signal,
            final(self).rx_signal == old(self).rx_signal,
            match rx_error_of(RxEvents::from_raw(old(self).regs.int_raw)) {
                Err(e) => r == Err::<usize, RxError>(e) && final(buf)@ == old(buf)@
                    && errors_cleared(old(self).regs, final(self).regs),
                Ok(_) => {
                    let n = vstd::math::min(old(self).regs.rx_fifo@.len() as int, old(buf)@.len() as int);
                    &&& r == Ok::<usize, RxError>(n as usize)
                    &&& final(buf)@ == old(self).regs.rx_fifo@.subrange(0, n) + old(buf)@.subrange(n, old(buf)@.len() as int)
                    &&& final(self).regs.rx_fifo@ == old(self).regs.rx_fifo@.subrange(n, old(self).regs.rx_fifo@.len() as int)
                    &&& final(self).regs == (UartRegs { rx_fifo: final(self).regs.rx_fifo, ..old(self).regs })
                },
            },
    {
        let count = self.rx_fifo_count() as usize;
        let to_read = if count < buf.len() { count } else { buf.len() };
        self.check_for_errors()?;
        let mut i: usize = 0;
        while i < to_read
            invariant
                self.wf(),
                i <= to_read,
                to_read <= old(self).regs.rx_fifo@.len(),
                to_read <= buf@.len(),
                buf@.len() == old(buf)@.len(),
                self.regs.rx_fifo@ == old(self).regs.rx_fifo@.subrange(i as int, old(self).regs.rx_fifo@.len() as int),
                buf@ == old(self).regs.rx_fifo@.subrange(0, i as int) + old(buf)@.subrange(i as int, old(buf)@.len() as int),
                self.regs == (UartRegs { rx_fifo: self.regs.rx_fifo, ..old(self).regs }),
                self.interrupt == old(self).interrupt,
                self.tx_signal == old(self).tx_signal,
                self.rx_signal == old(self).rx_signal,
            decreases to_read - i,
        {
            let byte = self.regs.rx_fifo.remove(0);
            buf[i] = byte;
            assert(self.regs.rx_fifo@ =~= old(self).regs.rx_fifo@.subrange(i + 1, old(self).regs.rx_fifo@.len() as int));
            assert(buf@ =~= old(self).regs.rx_fifo@.subrange(0, i + 1) + old(buf)@.subrange(i + 1, old(buf)@.len() as int));
            i = i + 1;
        }
        Ok(to_read)
    }

    /// Puts a byte into the TX FIFO.
    pub fn write_byte(&mut self, byte: u8)
        requires
            old(self).wf(),
            old(self).regs.tx_fifo@.len() < UART_FIFO_SIZE,
        ensures
            final(self).wf(),
            final(self).regs == (UartRegs { tx_fifo: final(self).regs.tx_fifo, ..old(self).regs }),
            final(self).regs.tx_fifo@ == old(self).regs.tx_fifo@.push(byte),
            final(self).interrupt == old(self).interrupt,
            final(self).tx_signal == old(self).tx_signal,
            final(self).rx_signal == old(self).rx_signal,
    {
        self.regs.tx_fifo.push(byte);
    }
}

/// The registers `r1` after a receive error was found in `r0`: the raw bits
/// of every error event (the timeout's too) are cleared, and the RX FIFO is
/// reset if it overflowed.
pub open spec fn errors_cleared(r0: UartRegs, r1: UartRegs) -> bool {
    if !bit_of(r0.int_raw, INT_RXFIFO_OVF) {
        r1 == (UartRegs { int_raw: r0.int_raw & !rx_error_events().mask(), ..r0 })
    } else {
        &&& r1 == (UartRegs {
            int_raw: r0.int_raw & !rx_error_events().mask(),
            conf0: with_bit(r0.conf0, CONF0_RXFIFO_RST, false),
            id: with_bit(r0.id, ID_REG_UPDATE, false),
            rx_fifo: r1.rx_fifo,
            ..r0
        })
        &&& r1.rx_fifo@ == Seq::<u8>::empty()
    }
}

/// The RX events of `events` whose raw interrupt bits are set in `raw`.
pub open spec fn rx_occurred(raw: u32, events: RxEvents) -> RxEvents {
    let e = RxEvents::from_raw(raw);
    RxEvents {
        fifo_full: e.fifo_full && events.fifo_full,
        cmd_char_detected: e.cmd_char_detected && events.cmd_char_detected,
        fifo_ovf: e.fifo_ovf && events.fifo_ovf,
        fifo_tout: e.fifo_tout && events.fifo_tout,
        glitch_detected: e.glitch_detected && events.glitch_detected,
        frame_error: e.frame_error && events.frame_error,
        parity_error: e.parity_error && events.parity_error,
    }
}

/// The TX events of `events` whose raw interrupt bits are set in `raw`.
pub open spec fn tx_occurred(raw: u32, events: TxEvents) -> TxEvents {
    let e = TxEvents::from_raw(raw);
    TxEvents { done: e.done && events.done, fifo_empty: e.fifo_empty && events.fifo_empty }
}

/// The registers after a poll found none of `events` (whose interrupt bits
/// are `mask`): listening for them is enabled on the first poll.
pub open spec fn listening(r: UartRegs, mask: u32, registered: bool) -> UartRegs {
    if registered { r } else { UartRegs { int_ena: r.int_ena | mask, ..r } }
}

impl Info {
    /// One poll of a wait for the RX events `events`: those of the set that
    /// have occurred are cleared and returned. When none has, the interrupts
    /// of the set are enabled on the first poll (`registered` false), the
    /// poll is marked as registered, and `None` says to wait to be woken.
    pub fn poll_rx_events(&mut self, events: RxEvents, registered: &mut bool) -> (r: Option<RxEvents>)
        ensures
            ({
                let occurred = rx_occurred(old(self).regs.int_raw, events);
                if !occurred.is_empty_set() {
                    &&& r == Some(occurred)
                    &&& final(self).regs == (UartRegs { int_raw: old(self).regs.int_raw & !occurred.mask(), ..old(self).regs })
                    &&& *final(registered) == *old(registered)
                } else {
                    &&& r is None
                    &&& final(self).regs == listening(old(self).regs, events.mask(), *old(registered))
                    &&& *final(registered)
                }
            }),
            final(self).interrupt == old(self).interrupt,
            final(self).tx_signal == old(self).tx_signal,
            final(self).rx_signal == old(self).rx_signal,
    {
        let occurred = self.rx_events().intersection(events);
        if !occurred.is_empty() {
            self.clear_rx_events(occurred);
            Some(occurred)
        } else {
            if !*registered {
                self.enable_listen_rx(events, true);
                *registered = true;
            }
            None
        }
    }

    /// One poll of a wait for the TX events `events`: `true`, with the
    /// events of the set that have occurred cleared, when any has. When
    /// none has, the interrupts of the set are enabled on the first poll
    /// (`registered` false), the poll is marked as registered, and `false`
    /// says to wait to be woken.
    pub fn poll_tx_events(&mut self, events: TxEvents, registered: &mut bool) -> (r: bool)
        ensures
            ({
                let occurred = tx_occurred(old(self).regs.int_raw, events);
                if !occurred.is_empty_set() {
                    &&& r
                    &&& final(self).regs == (UartRegs { int_raw: old(self).regs.int_raw & !occurred.mask(), ..old(self).regs })
                    &&& *final(registered) == *old(registered)
                } else {
                    &&& !r
                    &&& final(self).regs == listening(old(self).regs, events.mask(), *old(registered))
                    &&& *final(registered)
                }
            }),
            final(self).interrupt == old(self).interrupt,
            final(self).tx_signal == old(self).tx_signal,
            final(self).rx_signal == old(self).rx_signal,
    {
        let occurred = self.tx_events().intersection(events);
        if !occurred.is_empty() {
            self.clear_tx_events(occurred);
            true
        } else {
            if !*registered {
                self.enable_listen_tx(events, true);
                *registered = true;
            }
            false
        }
    }

    /// The interrupt handler: clears the enable bits of the interrupts that
    /// fired, and returns whether to wake the TX and the RX waiters.
    pub fn intr_handler(&mut self) -> (wake: (bool, bool))
        ensures
            ({
                let st = old(self).regs.int_raw & old(self).regs.int_ena;
                &&& final(self).regs == (UartRegs { int_ena: old(self).regs.int_ena & !st, ..old(self).regs })
                &&& wake.0 == (bit_of(st, INT_TX_DONE) || bit_of(st, INT_TXFIFO_EMPTY))
                &&& wake.1 == (bit_of(st, INT_RXFIFO_FULL) || bit_of(st, INT_RXFIFO_OVF) || bit_of(st, INT_RXFIFO_TOUT)
                    || bit_of(st, INT_AT_CMD_CHAR_DET) || bit_of(st, INT_GLITCH_DET) || bit_of(st, INT_FRM_ERR)
                    || bit_of(st, INT_PARITY_ERR))
            }),
            final(self).interrupt == old(self).interrupt,
            final(self).tx_signal == old(self).tx_signal,
            final(self).rx_signal == old(self).rx_signal,
    {
        let st = self.regs.int_raw & self.regs.int_ena;
        let rx_wake = bit(st, INT_RXFIFO_FULL) || bit(st, INT_RXFIFO_OVF) || bit(st, INT_RXFIFO_TOUT)
            || bit(st, INT_AT_CMD_CHAR_DET) || bit(st, INT_GLITCH_DET) || bit(st, INT_FRM_ERR)
            || bit(st, INT_PARITY_ERR);
        let tx_wake = bit(st, INT_TX_DONE) || bit(st, INT_TXFIFO_EMPTY);
        self.regs.int_ena = self.regs.int_ena & !st;
        (tx_wake, rx_wake)
    }
}

/// The interrupt bits the TX half clears when it disables its interrupts.
pub open spec fn tx_interrupt_bits() -> u32 {
    (1u32 << INT_TXFIFO_EMPTY) | (1u32 << INT_TX_BRK_DONE) | (1u32 << INT_TX_BRK_IDLE_DONE) | (1u32 << INT_TX_DONE)
}

/// The interrupt bits the RX half clears when it disables its interrupts.
pub open spec fn rx_interrupt_bits() -> u32 {
    (1u32 << INT_RXFIFO_FULL) | (1u32 << INT_RXFIFO_OVF) | (1u32 << INT_RXFIFO_TOUT) | (1u32 << INT_AT_CMD_CHAR_DET)
}

/// The transmit half of a UART.
pub struct UartTx {
    /// Keeps the UART's clock running.
    pub guard: PeripheralGuard,
    /// The pin the TX signal drives.
    pub tx_pin: PinGuard,
}

/// The receive half of a UART.
pub struct UartRx {
    /// Keeps the UART's clock running.
    pub guard: PeripheralGuard,
}

/// A UART: its receive and transmit halves.
pub struct Uart {
    pub rx: UartRx,
    pub tx: UartTx,
}

/// The output configuration a TX pin gets: push-pull, about 20 mA, no pull.
pub open spec fn tx_pin_config() -> OutputConfig {
    OutputConfig { drive_mode: gpio::DriveMode::PushPull, drive_strength: gpio::DriveStrength::_20mA, pull: Pull::NoPull }
}

/// The effect of preparing `tx` to carry the TX signal: its output high, the
/// TX pin configuration, and its output driver on. A level, or a pin that a
/// pin driver owns, is left as it is.
pub open spec fn tx_pin_prepared(g0: GpioRegs, m0: IoMuxRegs, g1: GpioRegs, m1: IoMuxRegs, tx: interconnect::OutputSignal) -> bool {
    &&& g1.wf()
    &&& m1.wf()
    &&& match tx.pin {
        interconnect::Signal::Pin(p) if tx.flags & interconnect::FROZEN == 0 => {
            &&& g1.out == g0.out | p.spec_mask()
            &&& g1.enable_log@ == g0.enable_log@.push((p.spec_mask(), g1.out))
            &&& g1.enable == g0.enable | p.spec_mask()
            &&& m1.gpio@ == m0.gpio@.update(p.num() as int, gpio::pad_for_output(m0.gpio@[p.num() as int], tx_pin_config()))
            &&& g1.pin@ == g0.pin@.update(p.num() as int, with_bit(g0.pin@[p.num() as int], gpio::PIN_PAD_DRIVER, false))
        },
        _ => {
            &&& g1.out == g0.out
            &&& g1.enable_log@ == g0.enable_log@
            &&& g1.enable == g0.enable
            &&& m1.gpio@ == m0.gpio@
            &&& g1.pin@ == g0.pin@
        },
    }
    &&& g1.func_in_sel_cfg == g0.func_in_sel_cfg
    &&& g1.func_out_sel_cfg == g0.func_out_sel_cfg
}

/// The effect of releasing the guard of `pin`: a connected pin's output goes
/// back to its `GPIO_OUT` bit.
pub open spec fn pin_released(g0: GpioRegs, g1: GpioRegs, pin: u8) -> bool {
    &&& g1.wf()
    &&& g1.func_out_sel_cfg@ == if pin == u8::MAX {
        g0.func_out_sel_cfg@
    } else {
        g0.func_out_sel_cfg@.update(pin as int,
            with_field(g0.func_out_sel_cfg@[pin as int], gpio::OUT_SEL_LSB, 8, gpio::OutputSignal::GPIO.code() as u32))
    }
    &&& g1.out == g0.out
    &&& g1.enable_log@ == g0.enable_log@
    &&& g1.enable == g0.enable
    &&& g1.pin == g0.pin
    &&& g1.func_in_sel_cfg == g0.func_in_sel_cfg
}

/// The effect of preparing `rx` to carry the RX signal: the pull-up on and
/// the input buffer enabled. A level, or a pin that a pin driver owns, is
/// left as it is.
pub open spec fn rx_pin_prepared(m0: IoMuxRegs, m1: IoMuxRegs, rx: interconnect::InputSignal) -> bool {
    &&& m1.wf()
    &&& m1.gpio@ == match rx.pin {
        interconnect::Signal::Pin(p) if rx.flags & interconnect::FROZEN == 0 =>
            m0.gpio@.update(p.num() as int, with_bit(gpio::pad_for_input(m0.gpio@[p.num() as int], InputConfig { pull: Pull::Up }),
                gpio::IO_MUX_FUN_IE, true)),
        _ => m0.gpio@,
    }
}

/// The pin number that a guard of `tx` records.
pub open spec fn guarded_pin(tx: interconnect::OutputSignal) -> u8 {
    match tx.pin {
        interconnect::Signal::Pin(p) => p.num(),
        interconnect::Signal::_Level(_) => u8::MAX,
    }
}

/// The registers after the TX half applies a configuration.
pub open spec fn tx_config_applied(r0: UartRegs, r1: UartRegs, config: Config) -> bool {
    &&& r1 == (UartRegs {
        conf1: with_field(r0.conf1, CONF1_TXFIFO_EMPTY_THRHD_LSB, 9, config.tx.fifo_empty_threshold as u32),
        conf0: with_bit(r0.conf0, CONF0_TXFIFO_RST, false),
        id: with_bit(r0.id, ID_REG_UPDATE, false),
        tx_fifo: r1.tx_fifo,
        ..r0
    })
    &&& r1.tx_fifo@ == Seq::<u8>::empty()
}

/// The registers after the RX half applies a configuration.
pub open spec fn rx_config_applied(r0: UartRegs, r1: UartRegs, config: Config) -> bool {
    let conf1 = with_field(r0.conf1, CONF1_RXFIFO_FULL_THRHD_LSB, 9, config.rx.fifo_full_threshold as u32);
    &&& r1 == (UartRegs {
        mem_conf: match config.rx.timeout {
            Some(t) => with_field(r0.mem_conf, MEM_CONF_RX_TOUT_THRHD_LSB, 10, (t * symbol_length(r0.conf0)) as u32),
            None => r0.mem_conf,
        },
        conf1: with_bit(conf1, CONF1_RX_TOUT_EN, config.rx.timeout is Some),
        conf0: with_bit(r0.conf0, CONF0_RXFIFO_RST, false),
        id: with_bit(r0.id, ID_REG_UPDATE, false),
        rx_fifo: r1.rx_fifo,
        ..r0
    })
    &&& r1.rx_fifo@ == Seq::<u8>::empty()
}

/// The RX half of a configuration that is accepted lands in the registers
/// as asked: the RX FIFO full threshold field holds the requested
/// threshold, the receive timeout is enabled exactly when one is asked for,
/// and its threshold field then holds the timeout in bits: the requested
/// number of symbols times the bits of a frame.
pub proof fn lemma_rx_config_fields(r0: UartRegs, r1: UartRegs, config: Config)
    requires
        rx_config_applied(r0, r1, config),
        rx_config_error(config, symbol_length(r0.conf0)) is None,
    ensures
        field_of(r1.conf1, CONF1_RXFIFO_FULL_THRHD_LSB, 9) == config.rx.fifo_full_threshold,
        bit_of(r1.conf1, CONF1_RX_TOUT_EN) == (config.rx.timeout is Some),
        config.rx.timeout matches Some(t) ==>
            field_of(r1.mem_conf, MEM_CONF_RX_TOUT_THRHD_LSB, 10) == t * symbol_length(r0.conf0),
{
    let thr = config.rx.fifo_full_threshold as u32;
    crate::bits::lemma_small_masks();
    crate::bits::lemma_field_roundtrip(r0.conf1, CONF1_RXFIFO_FULL_THRHD_LSB, 9, thr);
    let c = with_field(r0.conf1, CONF1_RXFIFO_FULL_THRHD_LSB, 9, thr);
    let en = config.rx.timeout is Some;
    crate::bits::lemma_bit_roundtrip(c, CONF1_RX_TOUT_EN, en);
    let c2 = if en { c | (1u32 << 21u32) } else { c & !(1u32 << 21u32) };
    assert(with_bit(c, CONF1_RX_TOUT_EN, en) == c2);
    assert((c2 >> 0u32) & 0x1ffu32 == (c >> 0u32) & 0x1ffu32) by (bit_vector)
        requires c2 == if en { c | (1u32 << 21u32) } else { c & !(1u32 << 21u32) };
    if let Some(t) = config.rx.timeout {
        let v = t * symbol_length(r0.conf0);
        assert(0 <= v <= 1023) by (nonlinear_arith)
            requires v == t * symbol_length(r0.conf0), t >= 0, symbol_length(r0.conf0) >= 0, v <= 1023;
        crate::bits::lemma_field_roundtrip(r0.mem_conf, MEM_CONF_RX_TOUT_THRHD_LSB, 10, v as u32);
    }
}

/// The TX half of a configuration lands in the registers as asked: the TX
/// FIFO empty threshold field holds the requested threshold.
pub proof fn lemma_tx_config_fields(r0: UartRegs, r1: UartRegs, config: Config)
    requires
        tx_config_applied(r0, r1, config),
        config.tx.fifo_empty_threshold <= TX_FIFO_MAX_THRHD,
    ensures
        field_of(r1.conf1, CONF1_TXFIFO_EMPTY_THRHD_LSB, 9) == config.tx.fifo_empty_threshold,
{
    crate::bits::lemma_small_masks();
    crate::bits::lemma_field_roundtrip(r0.conf1, CONF1_TXFIFO_EMPTY_THRHD_LSB, 9, config.tx.fifo_empty_threshold as u32);
}

/// What the RX half's configuration fails on, given the frame's symbol length.
pub open spec fn rx_config_error(config: Config, symbol_len: int) -> Option<ConfigError> {
    if config.rx.fifo_full_threshold > RX_FIFO_MAX_THRHD {
        Some(ConfigError::UnsupportedRxFifoThreshold)
    } else if config.rx.timeout matches Some(t) && t * symbol_len > RX_TOUT_MAX_THRHD {
        Some(ConfigError::UnsupportedTimeout)
    } else {
        None
    }
}

impl UartTx {
    /// Drives `tx` with the UART's TX signal: the pin goes high first, so as
    /// not to pulse low, then gets the push-pull configuration and its output
    /// driver, and is connected; the pin assigned before is disconnected.
    pub fn with_tx(self, info: &Info, gpio: &mut GpioRegs, io_mux: &mut IoMuxRegs, tx: interconnect::OutputSignal) -> (r: Self)
        requires
            tx.pin.wf(),
            old(gpio).wf(),
            old(io_mux).wf(),
            self.tx_pin.pin == u8::MAX || self.tx_pin.pin < gpio::NUM_PINS,
        ensures
            r.tx_pin.pin == guarded_pin(tx),
            r.guard == self.guard,
            exists|g1: GpioRegs, m1: IoMuxRegs, g2: GpioRegs| {
                &&& tx_pin_prepared(*old(gpio), *old(io_mux), g1, m1, tx)
                &&& interconnect::output_connected(g1, m1, g2, *final(io_mux), tx.pin, info.tx_signal,
                    tx.flags & interconnect::INVERT_OUTPUT != 0, tx.flags & interconnect::FORCE_GPIO_MATRIX != 0, true, false)
                &&& pin_released(g2, *final(gpio), self.tx_pin.pin)
            },
    {
        let mut this = self;
        tx.set_output_high(gpio, true);
        let cfg = OutputConfig::default();
        assert(cfg == tx_pin_config());
        tx.apply_output_config(gpio, io_mux, &cfg);
        tx.set_output_enable(gpio, true);
        let ghost g1 = *gpio;
        let ghost m1 = *io_mux;
        assert(g1.wf());
        assert(m1.wf());
        assert(g1.func_in_sel_cfg == old(gpio).func_in_sel_cfg);
        assert(g1.func_out_sel_cfg == old(gpio).func_out_sel_cfg);
        let new_pin = tx.connect_with_guard(gpio, io_mux, info.tx_signal);
        let ghost g2 = *gpio;
        let old_pin = this.tx_pin;
        this.tx_pin = new_pin;
        let ghost old_guard_pin = old_pin.pin;
        old_pin.release(gpio);
        assert(tx_pin_prepared(*old(gpio), *old(io_mux), g1, m1, tx));
        assert(interconnect::output_connected(g1, m1, g2, *io_mux, tx.pin, info.tx_signal,
            tx.flags & interconnect::INVERT_OUTPUT != 0, tx.flags & interconnect::FORCE_GPIO_MATRIX != 0, true, false));
        assert(pin_released(g2, *gpio, old_guard_pin));
        this
    }

    /// Applies the TX part of a configuration: the FIFO empty threshold,
    /// then resets the TX FIFO.
    pub fn apply_config(&mut self, info: &mut Info, config: &Config) -> (r: Result<(), ConfigError>)
        requires
            old(info).wf(),
        ensures
            final(info).wf(),
            final(info).interrupt == old(info).interrupt,
            final(info).tx_signal == old(info).tx_signal,
            final(info).rx_signal == old(info).rx_signal,
            *final(self) == *old(self),
            config.tx.fifo_empty_threshold > TX_FIFO_MAX_THRHD ==>
                r == Err::<(), ConfigError>(ConfigError::UnsupportedTxFifoThreshold) && final(info).regs == old(info).regs,
            config.tx.fifo_empty_threshold <= TX_FIFO_MAX_THRHD ==>
                r is Ok && tx_config_applied(old(info).regs, final(info).regs, *config),
    {
        info.set_tx_fifo_empty_threshold(config.tx.fifo_empty_threshold)?;
        info.txfifo_reset();
        Ok(())
    }

    /// Writes as many bytes as the TX FIFO has room for.
    pub fn write(&mut self, info: &mut Info, data: &[u8]) -> (r: Result<usize, TxError>)
        requires
            old(info).wf(),
            data@.len() == 0 || old(info).regs.tx_fifo@.len() < UART_FIFO_SIZE,
        ensures
            final(info).wf(),
            *final(self) == *old(self),
            ({
                let n = if data@.len() == 0 { 0 } else { vstd::math::min(UART_FIFO_SIZE - old(info).regs.tx_fifo@.len(), data@.len() as int) };
                &&& r == Ok::<usize, TxError>(n as usize)
                &&& final(info).regs.tx_fifo@ == old(info).regs.tx_fifo@ + data@.subrange(0, n)
            }),
            final(info).regs == (UartRegs { tx_fifo: final(info).regs.tx_fifo, ..old(info).regs }),
            final(info).interrupt == old(info).interrupt,
            final(info).tx_signal == old(info).tx_signal,
            final(info).rx_signal == old(info).rx_signal,
    {
        info.write(data)
    }

    /// One try of an asynchronous write: `None` while the TX FIFO is full
    /// (the writer then waits for the FIFO-empty event and tries again);
    /// else as many bytes of `bytes` as the FIFO has room for are written,
    /// and their number is returned.
    pub fn write_async(&mut self, info: &mut Info, bytes: &[u8]) -> (r: Option<Result<usize, TxError>>)
        requires
            old(info).wf(),
        ensures
            final(info).wf(),
            *final(self) == *old(self),
            old(info).regs.tx_fifo@.len() == UART_FIFO_SIZE ==> r is None && *final(info) == *old(info),
            old(info).regs.tx_fifo@.len() < UART_FIFO_SIZE ==> {
                let n = vstd::math::min(UART_FIFO_SIZE - old(info).regs.tx_fifo@.len(), bytes@.len() as int);
                &&& r == Some(Ok::<usize, TxError>(n as usize))
                &&& final(info).regs.tx_fifo@ == old(info).regs.tx_fifo@ + bytes@.subrange(0, n)
                &&& final(info).regs == (UartRegs { tx_fifo: final(info).regs.tx_fifo, ..old(info).regs })
                &&& final(info).interrupt == old(info).interrupt
                &&& final(info).tx_signal == old(info).tx_signal
                &&& final(info).rx_signal == old(info).rx_signal
            },
    {
        let space = UART_FIFO_SIZE - info.tx_fifo_count();
        if space == 0 {
            return None;
        }
        let r = info.write(bytes);
        proof {
            if bytes@.len() == 0 {
                assert(bytes@.subrange(0, 0) =~= Seq::<u8>::empty());
            }
        }
        Some(r)
    }

    /// Whether an asynchronous flush can stop waiting for the transmitter to
    /// be done: the TX FIFO is empty.
    pub fn flush_async(&self, info: &Info) -> (r: bool)
        requires
            info.wf(),
        ensures
            r == (info.regs.tx_fifo@.len() == 0),
    {
        info.tx_fifo_count() == 0
    }

    /// Whether the transmitter is idle.
    pub fn is_tx_idle(&self, info: &Info) -> (r: bool)
        ensures
            r == (field_of(info.regs.fsm_status, FSM_STATUS_ST_UTX_OUT_LSB, 4) == 0),
    {
        field(info.regs.fsm_status, FSM_STATUS_ST_UTX_OUT_LSB, 4) == 0
    }

    /// Clears the TX interrupts, and disables every interrupt.
    pub fn disable_tx_interrupts(&self, info: &mut Info)
        ensures
            final(info).regs == (UartRegs { int_raw: old(info).regs.int_raw & !tx_interrupt_bits(), int_ena: 0, ..old(info).regs }),
            final(info).interrupt == old(info).interrupt,
            final(info).tx_signal == old(info).tx_signal,
            final(info).rx_signal == old(info).rx_signal,
    {
        let clr = (1u32 << INT_TXFIFO_EMPTY) | (1u32 << INT_TX_BRK_DONE) | (1u32 << INT_TX_BRK_IDLE_DONE) | (1u32 << INT_TX_DONE);
        info.regs.int_raw = info.regs.int_raw & !clr;
        // INT_ENA is written whole, from its reset value of zero
        info.regs.int_ena = 0;
    }

    /// The register block of this UART.
    pub fn regs<'a>(&self, info: &'a Info) -> (r: &'a UartRegs)
        ensures
            r == &info.regs,
    {
        info.regs()
    }
}

impl UartRx {
    /// Connects the UART's RX signal to `rx`, with the pull-up on and the
    /// input buffer enabled.
    pub fn with_rx(self, info: &Info, gpio: &mut GpioRegs, io_mux: &mut IoMuxRegs, rx: interconnect::InputSignal) -> (r: Self)
        requires
            rx.pin.wf(),
            old(gpio).wf(),
            old(io_mux).wf(),
        ensures
            r.guard == self.guard,
            exists|m1: IoMuxRegs| {
                &&& rx_pin_prepared(*old(io_mux), m1, rx)
                &&& interconnect::input_connected(*old(gpio), m1, *final(gpio), *final(io_mux), rx.pin, info.rx_signal,
                    rx.flags & interconnect::INVERT_INPUT != 0, rx.flags & interconnect::FORCE_GPIO_MATRIX != 0)
            },
    {
        let mut cfg = InputConfig::default();
        let cfg = cfg.with_pull(Pull::Up);
        assert(cfg == InputConfig { pull: Pull::Up });
        rx.apply_input_config(io_mux, &cfg);
        rx.set_input_enable(io_mux, true);
        let ghost m1 = *io_mux;
        assert(m1.gpio@ =~= match rx.pin {
            interconnect::Signal::Pin(p) if rx.flags & interconnect::FROZEN == 0 =>
                old(io_mux).gpio@.update(p.num() as int, with_bit(gpio::pad_for_input(old(io_mux).gpio@[p.num() as int], InputConfig { pull: Pull::Up }),
                    gpio::IO_MUX_FUN_IE, true)),
            _ => old(io_mux).gpio@,
        });
        info.rx_signal.connect_to(gpio, io_mux, &rx);
        assert(rx_pin_prepared(*old(io_mux), m1, rx));
        self
    }

    /// Applies the RX part of a configuration: the FIFO full threshold and
    /// the receive timeout in symbols of the current frame format, then
    /// resets the RX FIFO.
    pub fn apply_config(&mut self, info: &mut Info, config: &Config) -> (r: Result<(), ConfigError>)
        requires
            old(info).wf(),
        ensures
            final(info).wf(),
            final(info).interrupt == old(info).interrupt,
            final(info).tx_signal == old(info).tx_signal,
            final(info).rx_signal == old(info).rx_signal,
            *final(self) == *old(self),
            r == match rx_config_error(*config, symbol_length(old(info).regs.conf0)) {
                Some(e) => Err::<(), ConfigError>(e),
                None => Ok(()),
            },
            config.rx.fifo_full_threshold > RX_FIFO_MAX_THRHD ==> final(info).regs == old(info).regs,
            r == Err::<(), ConfigError>(ConfigError::UnsupportedTimeout) ==> final(info).regs == (UartRegs {
                conf1: with_field(old(info).regs.conf1, CONF1_RXFIFO_FULL_THRHD_LSB, 9, config.rx.fifo_full_threshold as u32),
                ..old(info).regs
            }),
            r is Ok ==> rx_config_applied(old(info).regs, final(info).regs, *config),
    {
        info.set_rx_fifo_full_threshold(config.rx.fifo_full_threshold)?;
        let symbol_len = info.current_symbol_length();
        info.set_rx_timeout(config.rx.timeout, symbol_len)?;
        info.rxfifo_reset();
        proof { crate::bits::lemma_set_then_clear(old(info).regs.id, ID_REG_UPDATE); }
        Ok(())
    }

    /// Clears the RX interrupts, and disables every interrupt.
    pub fn disable_rx_interrupts(&self, info: &mut Info)
        ensures
            final(info).regs == (UartRegs { int_raw: old(info).regs.int_raw & !rx_interrupt_bits(), int_ena: 0, ..old(info).regs }),
            final(info).interrupt == old(info).interrupt,
            final(info).tx_signal == old(info).tx_signal,
            final(info).rx_signal == old(info).rx_signal,
    {
        let clr = (1u32 << INT_RXFIFO_FULL) | (1u32 << INT_RXFIFO_OVF) | (1u32 << INT_RXFIFO_TOUT) | (1u32 << INT_AT_CMD_CHAR_DET);
        info.regs.int_raw = info.regs.int_raw & !clr;
        // INT_ENA is written whole, from its reset value of zero
        info.regs.int_ena = 0;
    }

    /// The register block of this UART.
    pub fn regs<'a>(&self, info: &'a Info) -> (r: &'a UartRegs)
        ensures
            r == &info.regs,
    {
        info.regs()
    }
}

impl Info {
    /// Routes the UART's interrupt for the driver's own handler
    /// ([`Info::intr_handler`]), which runs at the lowest priority: the
    /// interrupt source is disabled, every UART interrupt disabled and
    /// cleared, and the source enabled at that priority.
    pub fn set_async_interrupt_handler(&mut self, intr: &mut InterruptCoreRegs)
        requires
            old(intr).wf(),
            old(self).interrupt < 64,
        ensures
            final(intr).wf(),
            routed_and_enabled(*old(intr), *final(intr), old(self).interrupt as int, Priority::Priority1),
            final(self).regs == (UartRegs {
                int_ena: old(self).regs.int_ena & !all_interrupts().mask(),
                int_raw: old(self).regs.int_raw & !all_interrupts().mask(),
                ..old(self).regs
            }),
            final(self).interrupt == old(self).interrupt,
            final(self).tx_signal == old(self).tx_signal,
            final(self).rx_signal == old(self).rx_signal,
    {
        disable(intr, self.interrupt);
        self.enable_listen(UartInterrupts::all(), false);
        self.clear_interrupts(UartInterrupts::all());
        let _ = enable(intr, self.interrupt, Priority::min());
        assert(intr.intr_map@ =~= old(intr).intr_map@.update(old(self).interrupt as int, 1u32));
    }
}

/// Every UART interrupt a user can listen for.
pub open spec fn all_interrupts() -> UartInterrupts {
    UartInterrupts { at_cmd: true, tx_done: true, rx_fifo_full: true, rx_timeout: true }
}

/// The registers after an AT command configuration is written: the clock
/// gated off for the write, the command byte and count, the idle and gap
/// counts that are given, the clock back on, and the settings synchronised.
pub open spec fn at_cmd_set(r: UartRegs, config: AtCmdConfig) -> UartRegs {
    UartRegs {
        clk_conf: with_bit(with_bit(r.clk_conf, CLK_CONF_SCLK_EN, false), CLK_CONF_SCLK_EN, true),
        at_cmd_char: (config.cmd_char as u32) | ((config.char_num as u32) << AT_CMD_CHAR_CHAR_NUM_LSB),
        at_cmd_precnt: match config.pre_idle_count { Some(n) => n as u32, None => r.at_cmd_precnt },
        at_cmd_postcnt: match config.post_idle_count { Some(n) => n as u32, None => r.at_cmd_postcnt },
        at_cmd_gaptout: match config.gap_timeout { Some(n) => n as u32, None => r.at_cmd_gaptout },
        id: with_bit(r.id, ID_REG_UPDATE, false),
        ..r
    }
}

impl Uart {
    /// Connects the UART's RX signal to `rx`; see [`UartRx::with_rx`].
    pub fn with_rx(self, info: &Info, gpio: &mut GpioRegs, io_mux: &mut IoMuxRegs, rx: interconnect::InputSignal) -> (r: Self)
        requires
            rx.pin.wf(),
            old(gpio).wf(),
            old(io_mux).wf(),
        ensures
            r.rx.guard == self.rx.guard,
            r.tx == self.tx,
            exists|m1: IoMuxRegs| {
                &&& rx_pin_prepared(*old(io_mux), m1, rx)
                &&& interconnect::input_connected(*old(gpio), m1, *final(gpio), *final(io_mux), rx.pin, info.rx_signal,
                    rx.flags & interconnect::INVERT_INPUT != 0, rx.flags & interconnect::FORCE_GPIO_MATRIX != 0)
            },
    {
        let Uart { rx: r0, tx } = self;
        let rx2 = r0.with_rx(info, gpio, io_mux, rx);
        Uart { rx: rx2, tx }
    }

    /// Drives `tx` with the UART's TX signal; see [`UartTx::with_tx`].
    pub fn with_tx(self, info: &Info, gpio: &mut GpioRegs, io_mux: &mut IoMuxRegs, tx: interconnect::OutputSignal) -> (r: Self)
        requires
            tx.pin.wf(),
            old(gpio).wf(),
            old(io_mux).wf(),
            self.tx.tx_pin.pin == u8::MAX || self.tx.tx_pin.pin < gpio::NUM_PINS,
        ensures
            r.rx == self.rx,
            r.tx.guard == self.tx.guard,
            r.tx.tx_pin.pin == guarded_pin(tx),
            exists|g1: GpioRegs, m1: IoMuxRegs, g2: GpioRegs| {
                &&& tx_pin_prepared(*old(gpio), *old(io_mux), g1, m1, tx)
                &&& interconnect::output_connected(g1, m1, g2, *final(io_mux), tx.pin, info.tx_signal,
                    tx.flags & interconnect::INVERT_OUTPUT != 0, tx.flags & interconnect::FORCE_GPIO_MATRIX != 0, true, false)
                &&& pin_released(g2, *final(gpio), self.tx.tx_pin.pin)
            },
    {
        let Uart { rx, tx: t0 } = self;
        let tx2 = t0.with_tx(info, gpio, io_mux, tx);
        Uart { rx, tx: tx2 }
    }

    /// Applies a configuration: the common part first, since the RX part
    /// reads back the symbol length, then the RX part, then the TX part.
    pub fn apply_config(&mut self, info: &mut Info, config: &Config, apb_clock_hz: u32) -> (r: Result<(), ConfigError>)
        requires
            old(info).wf(),
            baudrate_refused(*config) || baud_supported(source_clock(config.clock_source, apb_clock_hz), config.baudrate),
        ensures
            final(info).wf(),
            final(info).interrupt == old(info).interrupt,
            final(info).tx_signal == old(info).tx_signal,
            final(info).rx_signal == old(info).rx_signal,
            *final(self) == *old(self),
            r == config_result(old(info).regs, *config, apb_clock_hz),
            r is Err ==> refused_config_applied(old(info).regs, final(info).regs, *config, apb_clock_hz),
            r is Ok ==> configured(old(info).regs, final(info).regs, *config, apb_clock_hz),
    {
        match info.apply_config(config, apb_clock_hz) {
            Ok(()) => {},
            Err(e) => {
                return Err(e);
            },
        }
        let ghost r1 = info.regs;
        match self.rx.apply_config(info, config) {
            Ok(()) => {},
            Err(e) => {
                return Err(e);
            },
        }
        let ghost r2 = info.regs;
        match self.tx.apply_config(info, config) {
            Ok(()) => {},
            Err(e) => {
                return Err(e);
            },
        }
        assert(rx_config_applied(r1, r2, *config) && tx_config_applied(r2, info.regs, *config));
        Ok(())
    }

    /// Splits the UART into its receiver and its transmitter.
    pub fn split(self) -> (r: (UartRx, UartTx))
        ensures
            r.0 == self.rx,
            r.1 == self.tx,
    {
        (self.rx, self.tx)
    }

    /// Configures AT command detection.
    pub fn set_at_cmd(&mut self, info: &mut Info, config: AtCmdConfig)
        ensures
            final(info).regs == at_cmd_set(old(info).regs, config),
            final(info).interrupt == old(info).interrupt,
            final(info).tx_signal == old(info).tx_signal,
            final(info).rx_signal == old(info).rx_signal,
            *final(self) == *old(self),
    {
        info.regs.clk_conf = set_bit(info.regs.clk_conf, CLK_CONF_SCLK_EN, false);
        info.regs.at_cmd_char = (config.cmd_char as u32) | ((config.char_num as u32) << AT_CMD_CHAR_CHAR_NUM_LSB);
        if let Some(pre_idle_count) = config.pre_idle_count {
            info.regs.at_cmd_precnt = pre_idle_count as u32;
        }
        if let Some(post_idle_count) = config.post_idle_count {
            info.regs.at_cmd_postcnt = post_idle_count as u32;
        }
        if let Some(gap_timeout) = config.gap_timeout {
            info.regs.at_cmd_gaptout = gap_timeout as u32;
        }
        info.regs.clk_conf = set_bit(info.regs.clk_conf, CLK_CONF_SCLK_EN, true);
        info.sync_regs();
    }

    /// Initialises the UART: disables its interrupts, applies the
    /// configuration, resets both FIFOs, removes the idle time between
    /// transmissions, keeps received data with errors out of the FIFO, and
    /// clears every interrupt.
    fn init(&mut self, info: &mut Info, config: Config, apb_clock_hz: u32) -> (r: Result<(), ConfigError>)
        requires
            old(info).wf(),
            baudrate_refused(config) || baud_supported(source_clock(config.clock_source, apb_clock_hz), config.baudrate),
        ensures
            final(info).wf(),
            final(info).interrupt == old(info).interrupt,
            final(info).tx_signal == old(info).tx_signal,
            final(info).rx_signal == old(info).rx_signal,
            *final(self) == *old(self),
            r == config_result(interrupts_disabled(old(info).regs), config, apb_clock_hz),
            r is Err ==> refused_config_applied(interrupts_disabled(old(info).regs), final(info).regs, config, apb_clock_hz),
            r is Ok ==> exists|r3: UartRegs, r4: UartRegs| {
                &&& configured(interrupts_disabled(old(info).regs), r3, config, apb_clock_hz)
                &&& fifos_reset(r3, r4)
                &&& final(info).regs == init_finished(r4)
            },
    {
        self.rx.disable_rx_interrupts(info);
        self.tx.disable_tx_interrupts(info);
        assert(info.regs == interrupts_disabled(old(info).regs));
        match self.apply_config(info, &config, apb_clock_hz) {
            Ok(()) => {},
            Err(e) => {
                return Err(e);
            },
        }
        let ghost r3 = info.regs;
        info.rxfifo_reset();
        info.txfifo_reset();
        proof { crate::bits::lemma_set_then_clear(r3.id, ID_REG_UPDATE); }
        let ghost r4 = info.regs;
        assert(fifos_reset(r3, r4));
        info.regs.idle_conf = set_field(info.regs.idle_conf, IDLE_CONF_TX_IDLE_NUM_LSB, 10, 0);
        info.regs.conf0 = set_bit(info.regs.conf0, CONF0_ERR_WR_MASK, true);
        // every pending interrupt is cleared
        info.regs.int_raw = 0;
        Ok(())
    }

    /// Creates a UART: counts two users of its clock (its receiver and its
    /// transmitter), initialises it with `config`, and routes its interrupt
    /// for the driver's own handler at the lowest priority. On an error the
    /// two users are released.
    pub fn new(
        info: &mut Info,
        config: Config,
        apb_clock_hz: u32,
        ctl: &mut PeripheralClockControl,
        sys: &mut SystemRegs,
        intr: &mut InterruptCoreRegs,
    ) -> (r: Result<Uart, ConfigError>)
        requires
            old(info).wf(),
            old(intr).wf(),
            old(info).interrupt < 64,
            old(ctl).ref_counts.count(Peripheral::Uart1) + 2 <= usize::MAX,
            baudrate_refused(config) || baud_supported(source_clock(config.clock_source, apb_clock_hz), config.baudrate),
        ensures
            final(info).wf(),
            final(intr).wf(),
            (r is Ok) == (config_result(interrupts_disabled(old(info).regs), config, apb_clock_hz) is Ok),
            r is Err ==> r == Err::<Uart, ConfigError>(config_result(interrupts_disabled(old(info).regs), config, apb_clock_hz)->Err_0),
            r is Err ==> final(ctl).ref_counts.counts@ == old(ctl).ref_counts.counts@,
            r is Err ==> refused_config_applied(interrupts_disabled(old(info).regs), final(info).regs, config, apb_clock_hz),
            r is Err ==> *final(intr) == *old(intr),
            ({
                let prev = old(ctl).ref_counts.count(Peripheral::Uart1);
                let started = guard_started(*old(sys), Peripheral::Uart1, prev);
                &&& r is Ok ==> *final(sys) == started
                &&& r is Err ==> *final(sys) == if prev == 0 { switched(started, Peripheral::Uart1, false) } else { *old(sys) }
            }),
            r is Ok ==> ({
                let prev = old(ctl).ref_counts.count(Peripheral::Uart1);
                let u = r->Ok_0;
                &&& final(ctl).ref_counts.counts@ == old(ctl).ref_counts.counts@.update(Peripheral::Uart1.index(), (prev + 2) as usize)
                &&& u.rx.guard.peripheral == Peripheral::Uart1
                &&& u.tx.guard.peripheral == Peripheral::Uart1
                &&& u.tx.tx_pin.pin == u8::MAX
                &&& routed_and_enabled(*old(intr), *final(intr), old(info).interrupt as int, Priority::Priority1)
                &&& exists|r3: UartRegs, r4: UartRegs| {
                    &&& configured(interrupts_disabled(old(info).regs), r3, config, apb_clock_hz)
                    &&& fifos_reset(r3, r4)
                    &&& final(info).regs == init_finished(r4)
                }
            }),
    {
        let rx_guard = PeripheralGuard::new(ctl, sys, Peripheral::Uart1);
        let tx_guard = PeripheralGuard::new(ctl, sys, Peripheral::Uart1);
        let tx_pin = PinGuard::new_unconnected();
        let mut serial = Uart { rx: UartRx { guard: rx_guard }, tx: UartTx { guard: tx_guard, tx_pin } };
        match serial.init(info, config, apb_clock_hz) {
            Ok(()) => {},
            Err(e) => {
                let Uart { rx, tx } = serial;
                tx.guard.release(ctl, sys);
                rx.guard.release(ctl, sys);
                assert(ctl.ref_counts.counts@ =~= old(ctl).ref_counts.counts@);
                return Err(e);
            },
        }
        let ghost r_init = info.regs;
        info.set_async_interrupt_handler(intr);
        proof {
            let m = all_interrupts().mask();
            assert(0u32 & !m == 0u32) by (bit_vector);
        }
        assert(info.regs == r_init);
        Ok(serial)
    }
}

/// What waiting for buffered data takes.
#[derive(Debug, Clone, Copy, PartialEq, Eq, Structural)]
pub enum RxWait {
    /// Enough data is in the RX FIFO already.
    Ready,
    /// Wait for one of `events`, then finish with
    /// [`UartRx::wait_for_buffered_data_end`], which puts back the FIFO full
    /// threshold `restore_threshold`.
    Wait { events: RxEvents, restore_threshold: u16 },
}

/// The events that a wait for buffered data listens for: a full FIFO and
/// every error, a detected AT command when one is configured, and the
/// receive timeout when asked for and enabled.
pub open spec fn wait_events(r: UartRegs, listen_for_timeout: bool) -> RxEvents {
    RxEvents {
        fifo_full: true,
        cmd_char_detected: field_of(r.at_cmd_char, AT_CMD_CHAR_CHAR_NUM_LSB, 8) > 0,
        fifo_ovf: true,
        fifo_tout: listen_for_timeout && bit_of(r.conf1, CONF1_RX_TOUT_EN),
        glitch_detected: true,
        frame_error: true,
        parity_error: true,
    }
}

/// The FIFO full threshold that a wait for buffered data lowers the
/// threshold to: the caller's maximum, but no more than the current one.
pub open spec fn wait_threshold(current: u32, max_threshold: usize) -> u16 {
    if max_threshold < current { max_threshold as u16 } else { current as u16 }
}

/// The number of bytes a wait for buffered data waits for: the caller's
/// minimum, but no more than the FIFO can be asked for and than the
/// threshold of the wait.
pub open spec fn wait_minimum(minimum: usize, threshold: u16) -> u16 {
    let m: u16 = if minimum < RX_FIFO_MAX_THRHD { minimum as u16 } else { RX_FIFO_MAX_THRHD };
    if m < threshold { m } else { threshold }
}

impl Info {
    /// Whether a wait for `minimum` bytes, waiting for no more than
    /// `max_threshold`, finds too few bytes in the RX FIFO, so that it lowers
    /// the FIFO full threshold and waits.
    pub fn wait_lowers_threshold(&self, minimum: usize, max_threshold: usize) -> (r: bool)
        requires
            self.wf(),
        ensures
            r == (self.regs.rx_fifo@.len() < wait_minimum(
                minimum,
                wait_threshold(field_of(self.regs.conf1, CONF1_RXFIFO_FULL_THRHD_LSB, 9), max_threshold),
            )),
    {
        let current_threshold = self.rx_fifo_full_threshold();
        let max_threshold: u16 = if max_threshold < current_threshold as usize { max_threshold as u16 } else { current_threshold };
        let minimum: u16 = if minimum < RX_FIFO_MAX_THRHD as usize { minimum as u16 } else { RX_FIFO_MAX_THRHD };
        let minimum: u16 = if minimum < max_threshold { minimum } else { max_threshold };
        self.rx_fifo_count() < minimum
    }
}

impl UartRx {
    /// Begins waiting until at least `minimum` bytes are in the RX FIFO: if
    /// they are not there yet, lowers the FIFO full threshold so as not to
    /// wait for more than `max_threshold` bytes, and gives the events to wait
    /// for.
    pub fn wait_for_buffered_data_begin(&mut self, info: &mut Info, minimum: usize, max_threshold: usize, listen_for_timeout: bool) -> (r: RxWait)
        requires
            old(info).wf(),
            ({
                let current = field_of(old(info).regs.conf1, CONF1_RXFIFO_FULL_THRHD_LSB, 9);
                old(info).regs.rx_fifo@.len() < wait_minimum(minimum, wait_threshold(current, max_threshold))
                    ==> current <= RX_FIFO_MAX_THRHD
            }),
        ensures
            final(info).wf(),
            final(info).interrupt == old(info).interrupt,
            final(info).tx_signal == old(info).tx_signal,
            final(info).rx_signal == old(info).rx_signal,
            *final(self) == *old(self),
            ({
                let current = field_of(old(info).regs.conf1, CONF1_RXFIFO_FULL_THRHD_LSB, 9);
                let threshold = wait_threshold(current, max_threshold);
                if old(info).regs.rx_fifo@.len() < wait_minimum(minimum, threshold) {
                    &&& r == RxWait::Wait { events: wait_events(old(info).regs, listen_for_timeout), restore_threshold: current as u16 }
                    &&& final(info).regs == (UartRegs {
                        conf1: with_field(old(info).regs.conf1, CONF1_RXFIFO_FULL_THRHD_LSB, 9, threshold as u32),
                        ..old(info).regs
                    })
                } else {
                    &&& r == RxWait::Ready
                    &&& final(info).regs == old(info).regs
                }
            }),
    {
        let ghost old_max = max_threshold;
        let ghost old_min = minimum;
        let lowers = info.wait_lowers_threshold(minimum, max_threshold);
        let current_threshold = info.rx_fifo_full_threshold();
        let max_threshold: u16 = if max_threshold < current_threshold as usize { max_threshold as u16 } else { current_threshold };
        let minimum: u16 = if minimum < RX_FIFO_MAX_THRHD as usize { minimum as u16 } else { RX_FIFO_MAX_THRHD };
        let minimum: u16 = if minimum < max_threshold { minimum } else { max_threshold };
        assert(max_threshold == wait_threshold(field_of(old(info).regs.conf1, CONF1_RXFIFO_FULL_THRHD_LSB, 9), old_max));
        assert(minimum == wait_minimum(old_min, max_threshold));
        if lowers {
            let set = info.set_rx_fifo_full_threshold(max_threshold);
            proof {
                assert((max_threshold as u32) < (1u32 << 9u32)) by {
                    assert(1u32 << 9u32 == 512) by (bit_vector);
                }
                crate::bits::lemma_field_roundtrip(old(info).regs.conf1, CONF1_RXFIFO_FULL_THRHD_LSB, 9, max_threshold as u32);
            }
            let cmd_char = field(info.regs.at_cmd_char, AT_CMD_CHAR_CHAR_NUM_LSB, 8) > 0;
            let timeout = listen_for_timeout && bit(info.regs.conf1, CONF1_RX_TOUT_EN);
            let events = RxEvents {
                fifo_full: true,
                cmd_char_detected: cmd_char,
                fifo_ovf: true,
                fifo_tout: timeout,
                glitch_detected: true,
                frame_error: true,
                parity_error: true,
            };
            assert(events == wait_events(old(info).regs, listen_for_timeout));
            assert(info.regs == (UartRegs {
                        conf1: with_field(old(info).regs.conf1, CONF1_RXFIFO_FULL_THRHD_LSB, 9, max_threshold as u32),
                        ..old(info).regs
                    }));
            RxWait::Wait { events, restore_threshold: current_threshold }
        } else {
            RxWait::Ready
        }
    }

    /// Finishes a wait for buffered data on the events that ended it: an
    /// error among them is returned, an overflow emptying the RX FIFO first;
    /// then the FIFO full threshold is put back.
    pub fn wait_for_buffered_data_end(&mut self, info: &mut Info, events: RxEvents, restore_threshold: u16) -> (r: Result<(), RxError>)
        requires
            old(info).wf(),
            restore_threshold <= RX_FIFO_MAX_THRHD,
        ensures
            final(info).wf(),
            final(info).interrupt == old(info).interrupt,
            final(info).tx_signal == old(info).tx_signal,
            final(info).rx_signal == old(info).rx_signal,
            *final(self) == *old(self),
            r == rx_error_of(events),
            r == Err::<(), RxError>(RxError::FifoOverflowed) ==> final(info).regs == (UartRegs {
                conf1: with_field(old(info).regs.conf1, CONF1_RXFIFO_FULL_THRHD_LSB, 9, restore_threshold as u32),
                conf0: with_bit(old(info).regs.conf0, CONF0_RXFIFO_RST, false),
                id: with_bit(old(info).regs.id, ID_REG_UPDATE, false),
                rx_fifo: final(info).regs.rx_fifo,
                ..old(info).regs
            }) && final(info).regs.rx_fifo@ == Seq::<u8>::empty(),
            r != Err::<(), RxError>(RxError::FifoOverflowed) ==> final(info).regs == (UartRegs {
                conf1: with_field(old(info).regs.conf1, CONF1_RXFIFO_FULL_THRHD_LSB, 9, restore_threshold as u32),
                ..old(info).regs
            }),
    {
        let result = rx_event_check_for_error(events);
        if let Err(RxError::FifoOverflowed) = result {
            info.rxfifo_reset();
        }
        let restored = info.set_rx_fifo_full_threshold(restore_threshold);
        result
    }

    /// One read of an exact read into `buf`, of which the first `filled`
    /// bytes are read already: the bytes already received are put after
    /// them, as many as fit, unless the raw interrupt bits report a receive
    /// error; gives how many bytes of `buf` are filled then. The reader
    /// waits for the bytes still missing and reads again until `buf` is
    /// full.
    pub fn read_exact_async(&mut self, info: &mut Info, buf: &mut [u8], filled: usize) -> (r: Result<usize, RxError>)
        requires
            old(info).wf(),
            filled <= old(buf)@.len(),
        ensures
            final(info).wf(),
            *final(self) == *old(self),
            final(info).interrupt == old(info).interrupt,
            final(info).tx_signal == old(info).tx_signal,
            final(info).rx_signal == old(info).rx_signal,
            match rx_error_of(RxEvents::from_raw(old(info).regs.int_raw)) {
                Err(e) => r == Err::<usize, RxError>(e) && final(buf)@ == old(buf)@
                    && errors_cleared(old(info).regs, final(info).regs),
                Ok(_) => {
                    let fifo = old(info).regs.rx_fifo@;
                    let n = vstd::math::min(fifo.len() as int, old(buf)@.len() - filled);
                    &&& r == Ok::<usize, RxError>((filled + n) as usize)
                    &&& final(buf)@ == old(buf)@.subrange(0, filled as int) + fifo.subrange(0, n)
                        + old(buf)@.subrange(filled + n, old(buf)@.len() as int)
                    &&& final(info).regs.rx_fifo@ == fifo.subrange(n, fifo.len() as int)
                    &&& final(info).regs == (UartRegs { rx_fifo: final(info).regs.rx_fifo, ..old(info).regs })
                },
            },
    {
        let count = info.rx_fifo_count() as usize;
        let room = buf.len() - filled;
        let to_read = if count < room { count } else { room };
        info.check_for_errors()?;
        let ghost fifo = old(info).regs.rx_fifo@;
        let ghost b0 = old(buf)@;
        let mut i: usize = 0;
        while i < to_read
            invariant
                info.wf(),
                i <= to_read,
                to_read <= fifo.len(),
                filled + to_read <= b0.len(),
                b0.len() <= usize::MAX,
                buf@.len() == b0.len(),
                info.regs.rx_fifo@ == fifo.subrange(i as int, fifo.len() as int),
                buf@ == b0.subrange(0, filled as int) + fifo.subrange(0, i as int) + b0.subrange(filled + i, b0.len() as int),
                info.regs == (UartRegs { rx_fifo: info.regs.rx_fifo, ..old(info).regs }),
                info.interrupt == old(info).interrupt,
                info.tx_signal == old(info).tx_signal,
                info.rx_signal == old(info).rx_signal,
            decreases to_read - i,
        {
            let byte = info.regs.rx_fifo.remove(0);
            buf[filled + i] = byte;
            assert(info.regs.rx_fifo@ =~= fifo.subrange(i + 1, fifo.len() as int));
            assert(buf@ =~= b0.subrange(0, filled as int) + fifo.subrange(0, i + 1) + b0.subrange(filled + i + 1, b0.len() as int));
            i = i + 1;
        }
        Ok(filled + to_read)
    }
}

} // verus!
