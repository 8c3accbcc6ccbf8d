//! A driver for a PL011-compatible UART peripheral, verified against a
//! plain-value model of its register block.

pub mod baud;
pub mod config;
pub mod format;
pub mod peripheral;
pub mod reader;
pub mod registers;
pub mod writer;

pub use baud::{calculate_baudrate_dividers, effective_baudrate};
pub use config::{DataBits, Error, Parity, StopBits, UartConfig, UartPinout};
pub use peripheral::{Disabled, Enabled, Reader, UartPeripheral, Writer};
pub use reader::{NbError, ReadError, ReadErrorType};
pub use registers::{RxPath, TxPath, UartDevice, UartRegs, FIFO_DEPTH};
pub use writer::WouldBlock;
