use vstd::prelude::*;

verus! {

/// Number of data bits in a character frame.
#[derive(Clone, Copy, Debug, PartialEq, Eq, Structural)]
pub enum DataBits {
    Five,
    Six,
    Seven,
    Eight,
}

/// Number of stop bits after each character.
#[derive(Clone, Copy, Debug, PartialEq, Eq, Structural)]
pub enum StopBits {
    One,
    Two,
}

/// Parity checking mode, when parity is enabled.
#[derive(Clone, Copy, Debug, PartialEq, Eq, Structural)]
pub enum Parity {
    Odd,
    Even,
}

/// The line settings the peripheral is brought up with.
#[derive(Clone, Copy, Debug, PartialEq, Eq, Structural)]
pub struct UartConfig {
    /// Wanted baud rate, in bits per second.
    pub baudrate: u32,
    pub data_bits: DataBits,
    pub stop_bits: StopBits,
    pub parity: Option<Parity>,
}

/// Which UART signals are wired to pins. Each enable bit of the control
/// register is only set when the matching signal is present.
#[derive(Clone, Copy, Debug, PartialEq, Eq, Structural)]
pub struct UartPinout {
    pub tx: bool,
    pub rx: bool,
    pub cts: bool,
    pub rts: bool,
}

/// Errors raised while bringing the peripheral up.
#[derive(Clone, Copy, Debug, PartialEq, Eq, Structural)]
pub enum Error {
    /// The wanted baud rate cannot be derived from the reference frequency.
    BadArgument,
}

/// 9600 baud, 8 data bits, no parity, 1 stop bit.
pub fn config_9600_8_n_1() -> (c: UartConfig)
    ensures
        c.baudrate == 9600,
        c.data_bits == DataBits::Eight,
        c.stop_bits == StopBits::One,
        c.parity == None::<Parity>,
{
    UartConfig {
        baudrate: 9600,
        data_bits: DataBits::Eight,
        stop_bits: StopBits::One,
        parity: None,
    }
}

/// 115200 baud, 8 data bits, no parity, 1 stop bit.
pub fn config_115200_8_n_1() -> (c: UartConfig)
    ensures
        c.baudrate == 115200,
        c.data_bits == DataBits::Eight,
        c.stop_bits == StopBits::One,
        c.parity == None::<Parity>,
{
    UartConfig {
        baudrate: 115200,
        data_bits: DataBits::Eight,
        stop_bits: StopBits::One,
        parity: None,
    }
}

} // verus!
